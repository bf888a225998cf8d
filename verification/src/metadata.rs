//! What the command line knows of a command before it runs it: its name,
//! its help text, and the parameters it takes.
use vstd::prelude::*;

verus! {

/// A parameter of a command.
pub struct ParamMetadata {
    pub name: String,
    pub is_optional: bool,
    pub help: String,
}

/// The plain contents of a parameter's metadata.
pub struct ParamView {
    pub name: Seq<char>,
    pub is_optional: bool,
    pub help: Seq<char>,
}

/// The metadata of a parameter, from its three parts.
pub open spec fn param_view(name: Seq<char>, is_optional: bool, help: Seq<char>) -> ParamView {
    ParamView { name, is_optional, help }
}

impl View for ParamMetadata {
    type V = ParamView;

    open spec fn view(&self) -> ParamView {
        param_view(self.name@, self.is_optional, self.help@)
    }
}

impl ParamMetadata {
    pub fn new(name: &str, is_optional: bool, help: &str) -> (p: ParamMetadata)
        ensures
            p@ == param_view(name@, is_optional, help@),
    {
        ParamMetadata { name: String::from_str(name), is_optional, help: String::from_str(help) }
    }
}

/// The metadata of a command: its name, its help text, the parameter that
/// may be given without its name (the main one), and the named parameters
/// in the order in which the help lists them.
pub struct CommandMetadata {
    pub name: String,
    pub help: String,
    pub main_param: Option<ParamMetadata>,
    pub params: Vec<ParamMetadata>,
}

/// The plain contents of a command's metadata.
pub struct CommandView {
    pub name: Seq<char>,
    pub help: Seq<char>,
    pub main_param: Option<ParamView>,
    pub params: Seq<ParamView>,
}

/// The contents of an optional parameter's metadata.
pub open spec fn opt_param_view(p: Option<ParamMetadata>) -> Option<ParamView> {
    match p {
        Some(p) => Some(p@),
        None => None,
    }
}

impl View for CommandMetadata {
    type V = CommandView;

    open spec fn view(&self) -> CommandView {
        CommandView {
            name: self.name@,
            help: self.help@,
            main_param: opt_param_view(self.main_param),
            params: self.params@.map_values(|p: ParamMetadata| p@),
        }
    }
}

/// A command's metadata while it is being put together.
pub struct CommandMetadataBuilder {
    pub metadata: CommandMetadata,
}

impl View for CommandMetadataBuilder {
    type V = CommandView;

    open spec fn view(&self) -> CommandView {
        self.metadata@
    }
}

impl CommandMetadata {
    /// Starts the metadata of a command with its name and help text and no
    /// parameters.
    pub fn build(name: &str, help: &str) -> (b: CommandMetadataBuilder)
        ensures
            b@ == (CommandView { name: name@, help: help@, main_param: None, params: seq![] }),
    {
        let b = CommandMetadataBuilder {
            metadata: CommandMetadata {
                name: String::from_str(name),
                help: String::from_str(help),
                main_param: None,
                params: Vec::new(),
            },
        };
        assert(b@.params =~= seq![]);
        b
    }
}

impl CommandMetadataBuilder {
    /// Adds a named parameter after the ones added before.
    pub fn add_param(self, name: &str, is_optional: bool, help: &str) -> (b: CommandMetadataBuilder)
        ensures
            b@ == (CommandView {
                params: self@.params.push(param_view(name@, is_optional, help@)),
                ..self@
            }),
    {
        let mut b = self;
        let ghost before = b.metadata.params@;
        b.metadata.params.push(ParamMetadata::new(name, is_optional, help));
        assert(b.metadata.params@.map_values(|p: ParamMetadata| p@) =~= before.map_values(
            |p: ParamMetadata| p@,
        ).push(param_view(name@, is_optional, help@)));
        b
    }

    /// Sets the main parameter: a required one that may be given without
    /// its name.
    pub fn add_main_param(self, name: &str, help: &str) -> (b: CommandMetadataBuilder)
        ensures
            b@ == (CommandView { main_param: Some(param_view(name@, false, help@)), ..self@ }),
    {
        let mut b = self;
        b.metadata.main_param = Some(ParamMetadata::new(name, false, help));
        b
    }

    /// The metadata put together.
    pub fn finalize(self) -> (m: CommandMetadata)
        ensures
            m@ == self@,
    {
        self.metadata
    }
}

/// The metadata of a group of commands: its name and help text.
pub struct GroupMetadata {
    pub name: String,
    pub help: String,
}

/// The plain contents of a group's metadata.
pub struct GroupView {
    pub name: Seq<char>,
    pub help: Seq<char>,
}

impl View for GroupMetadata {
    type V = GroupView;

    open spec fn view(&self) -> GroupView {
        GroupView { name: self.name@, help: self.help@ }
    }
}

impl GroupMetadata {
    pub fn new(name: &str, help: &str) -> (g: GroupMetadata)
        ensures
            g@ == (GroupView { name: name@, help: help@ }),
    {
        GroupMetadata { name: String::from_str(name), help: String::from_str(help) }
    }
}

} // verus!
