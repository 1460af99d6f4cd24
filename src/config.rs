//! The run configuration taken from the command line.
use vstd::prelude::*;
use crate::document::DocumentType;
use crate::text::{copy_text, same_text};

verus! {

/// The command line: mode, data type, and the debug and force switches.
#[derive(Debug, Clone)]
pub struct Args {
    pub mode: String,
    pub debug: bool,
    pub datatype: String,
    pub force: bool,
}

/// The configuration of one import or export over one list.
#[derive(Debug)]
pub struct Config {
    pub data_type: DocumentType,
    pub debug: bool,
    pub mode: String,
    pub force: bool,
    pub loaded: bool,
}

/// The two modes of a run.
pub open spec fn is_mode(s: Seq<char>) -> bool {
    s == "import"@ || s == "export"@
}

/// The data types a run may name.
pub open spec fn is_data_type(s: Seq<char>) -> bool {
    s == "OFAC"@ || s == "OFACNS"@ || s == "FOFDBOF"@ || s == "FOFNASY"@ || s == "ALL"@
}

/// The list that a data type names, if it names one.
pub open spec fn list_of(s: Seq<char>) -> Option<DocumentType> {
    if s == "OFAC"@ {
        Some(DocumentType::OFAC)
    } else if s == "OFACNS"@ {
        Some(DocumentType::OFACNS)
    } else {
        None
    }
}

/// Accepts `import` or `export`.
pub fn mode_parsing(s: &str) -> (r: Result<String, &'static str>)
    ensures
        r is Ok <==> is_mode(s@),
        r matches Ok(m) ==> m@ == s@,
{
    if same_text(s, "import") || same_text(s, "export") {
        Ok(copy_text(s))
    } else {
        Err("mode must be `import` or `export`")
    }
}

/// Accepts the data types `OFAC`, `OFACNS`, `FOFDBOF`, `FOFNASY` and `ALL`.
pub fn data_type_parsing(s: &str) -> (r: Result<String, &'static str>)
    ensures
        r is Ok <==> is_data_type(s@),
        r matches Ok(m) ==> m@ == s@,
{
    if same_text(s, "OFAC") || same_text(s, "OFACNS") || same_text(s, "FOFDBOF") || same_text(
        s,
        "FOFNASY",
    ) || same_text(s, "ALL") {
        Ok(copy_text(s))
    } else {
        Err(
            "datatype for import must be one of `OFAC` | `OFACNS` | `ALL`; datatype for export must be one of `FOFDBOF` | `FOFNASY` | `ALL`",
        )
    }
}

impl Config {
    /// The configuration for the list that `args` names; an error naming the
    /// data type when it names no list.
    pub fn init(args: &Args) -> (r: Result<Config, String>)
        ensures
            r is Ok <==> list_of(args.datatype@) is Some,
            r matches Ok(c) ==> {
                &&& Some(c.data_type) == list_of(args.datatype@)
                &&& c.debug == args.debug
                &&& c.force == args.force
                &&& c.mode@ == args.mode@
                &&& !c.loaded
            },
            r matches Err(m) ==> m@ == "Data type "@ + args.datatype@
                + " not recognized (must be one of `OFAC` | `OFACNS`)"@,
    {
        let data_type = if same_text(args.datatype.as_str(), "OFAC") {
            DocumentType::OFAC
        } else if same_text(args.datatype.as_str(), "OFACNS") {
            DocumentType::OFACNS
        } else {
            let mut msg = String::from_str("Data type ");
            msg.append(args.datatype.as_str());
            msg.append(" not recognized (must be one of `OFAC` | `OFACNS`)");
            return Err(msg);
        };
        Ok(
            Config {
                data_type,
                debug: args.debug,
                mode: copy_text(args.mode.as_str()),
                force: args.force,
                loaded: false,
            },
        )
    }

    /// Whether logging has been set up for this configuration.
    pub fn is_loaded(&self) -> (r: bool)
        ensures
            r == self.loaded,
    {
        self.loaded
    }

    /// Records that logging has been set up.
    pub fn set_loaded(&mut self)
        ensures
            final(self).loaded,
            final(self).data_type == old(self).data_type,
            final(self).debug == old(self).debug,
            final(self).force == old(self).force,
            final(self).mode == old(self).mode,
    {
        self.loaded = true;
    }
}

/// The lists that a run covers: both (the consolidated one first) for an
/// import of `ALL`; both (the main one first) for any export; otherwise the
/// one the data type names.
pub open spec fn run_lists(args: &Args) -> Option<Seq<DocumentType>> {
    if args.datatype@ == "ALL"@ && args.mode@ == "import"@ {
        Some(seq![DocumentType::OFACNS, DocumentType::OFAC])
    } else if args.mode@ == "export"@ {
        Some(seq![DocumentType::OFAC, DocumentType::OFACNS])
    } else {
        match list_of(args.datatype@) {
            Some(t) => Some(seq![t]),
            None => None,
        }
    }
}

/// One configuration per list that the run covers; an error when the data
/// type names no list.
pub fn load_configs(args: &Args) -> (r: Result<Vec<Config>, String>)
    ensures
        r is Ok <==> run_lists(args) is Some,
        r matches Ok(cs) ==> {
            &&& cs@.len() == run_lists(args)->0.len()
            &&& forall|i: int|
                0 <= i < cs@.len() ==> {
                    &&& (#[trigger] cs@[i]).data_type == run_lists(args)->0[i]
                    &&& cs@[i].debug == args.debug
                    &&& cs@[i].force == args.force
                    &&& cs@[i].mode@ == args.mode@
                }
        },
{
    let mut configs: Vec<Config> = Vec::new();
    if same_text(args.datatype.as_str(), "ALL") && same_text(args.mode.as_str(), "import") {
        configs.push(with_list(args, DocumentType::OFACNS));
        configs.push(with_list(args, DocumentType::OFAC));
    } else if same_text(args.mode.as_str(), "export") {
        configs.push(with_list(args, DocumentType::OFAC));
        configs.push(with_list(args, DocumentType::OFACNS));
    } else {
        match Config::init(args) {
            Ok(c) => configs.push(c),
            Err(e) => {
                return Err(e);
            },
        }
    }
    Ok(configs)
}

/// The configuration of `args` for list `t`.
fn with_list(args: &Args, t: DocumentType) -> (r: Config)
    ensures
        r.data_type == t,
        r.debug == args.debug,
        r.force == args.force,
        r.mode@ == args.mode@,
        !r.loaded,
{
    Config {
        data_type: t,
        debug: args.debug,
        mode: copy_text(args.mode.as_str()),
        force: args.force,
        loaded: false,
    }
}

} // verus!
