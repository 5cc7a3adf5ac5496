//! The command-line interface: how the values of the argument model are
//! written on the command line, and the configuration that a command line
//! amounts to.

use crate::data::{
    adjust, is_alphanumeric, is_crate_name, lemma_edition_named_by_its_name, CrateNameBuf,
    CrateType, Edition,
};
use crate::text::{
    join_with, joined, lemma_joined_holds_items, occurs_in, quoted, slice_texts, str_eq, texts,
};
use std::path::PathBuf;
use vstd::prelude::*;
use vstd::string::StringExecFns;

verus! {

/// The sentence that lists the values an argument can take: each value
/// between backticks, a comma and a blank between each two.
pub open spec fn possible_values_text(values: Seq<Seq<char>>) -> Seq<char> {
    "possible values: "@ + joined(values.map_values(|value: Seq<char>| quoted(value)), ", "@)
}

/// Tells the user which values an argument can take.
pub fn possible_values(values: &[&str]) -> (message: String)
    ensures
        message@ == possible_values_text(slice_texts(values@)),
{
    let mut items: Vec<String> = Vec::new();
    let mut index: usize = 0;
    while index < values.len()
        invariant
            index <= values@.len(),
            texts(items@) == slice_texts(values@).take(index as int).map_values(
                |value: Seq<char>| quoted(value),
            ),
        decreases values@.len() - index,
    {
        let mut item = String::from_str("`");
        item.append(values[index]);
        item.append("`");
        let ghost earlier = texts(items@);
        items.push(item);
        assert(texts(items@) =~= earlier.push(quoted(values@[index as int]@)));
        index += 1;
    }
    assert(slice_texts(values@).take(index as int) =~= slice_texts(values@));
    let mut message = String::from_str("possible values: ");
    message.append(join_with(&items, ", ").as_str());
    message
}

impl Edition {
    /// The edition that a text on the command line stands for: one of the
    /// shorthands `D`, `S` and `U`, or else a canonical name.
    pub open spec fn cli_named(source: Seq<char>) -> Option<Edition> {
        if source == "D"@ {
            Some(Edition::DEFAULT)
        } else if source == "S"@ {
            Some(Edition::LATEST_STABLE)
        } else if source == "U"@ {
            Some(Edition::BLEEDING_EDGE)
        } else {
            Edition::named(source)
        }
    }

    /// Everything that the command line accepts for an edition: the
    /// canonical names, oldest edition first, then the shorthands.
    pub open spec fn cli_tokens() -> Seq<Seq<char>> {
        Edition::all().map_values(|edition: Edition| edition.name()) + seq!["D"@, "S"@, "U"@]
    }

    /// Everything that the command line accepts for an edition.
    fn cli_token_list() -> (tokens: Vec<&'static str>)
        ensures
            slice_texts(tokens@) == Edition::cli_tokens(),
    {
        let editions = Edition::elements();
        let mut tokens: Vec<&'static str> = Vec::new();
        let mut index: usize = 0;
        while index < editions.len()
            invariant
                editions@ == Edition::all(),
                index <= editions@.len(),
                slice_texts(tokens@) == Edition::all().take(index as int).map_values(
                    |edition: Edition| edition.name(),
                ),
            decreases editions@.len() - index,
        {
            let ghost earlier = slice_texts(tokens@);
            tokens.push(editions[index].to_str());
            assert(slice_texts(tokens@) =~= earlier.push(editions@[index as int].name()));
            index += 1;
        }
        assert(Edition::all().take(index as int) =~= Edition::all());
        tokens.push("D");
        tokens.push("S");
        tokens.push("U");
        assert(slice_texts(tokens@) =~= Edition::cli_tokens());
        tokens
    }

    /// Reads an edition as it is written on the command line.
    ///
    /// `D` is the default edition, `S` the latest stable one and `U` the
    /// bleeding edge, each to the letter; anything else has to be a
    /// canonical name. The error lists all of these.
    pub fn parse_cli_style(source: &str) -> (parsed: Result<Edition, String>)
        ensures
            source@ == "D"@ ==> parsed == Ok::<Edition, String>(Edition::DEFAULT),
            source@ == "S"@ ==> parsed == Ok::<Edition, String>(Edition::LATEST_STABLE),
            source@ == "U"@ ==> parsed == Ok::<Edition, String>(Edition::BLEEDING_EDGE),
            match Edition::cli_named(source@) {
                Some(edition) => parsed == Ok::<Edition, String>(edition),
                None => parsed matches Err(message) && message@ == possible_values_text(
                    Edition::cli_tokens(),
                ),
            },
    {
        proof {
            reveal_strlit("D");
            reveal_strlit("S");
            reveal_strlit("U");
            assert("D"@[0] == 'D' && "S"@[0] == 'S' && "U"@[0] == 'U');
        }
        if str_eq(source, "D") {
            Ok(Edition::default())
        } else if str_eq(source, "S") {
            Ok(Edition::LATEST_STABLE)
        } else if str_eq(source, "U") {
            Ok(Edition::BLEEDING_EDGE)
        } else {
            match Edition::parse(source) {
                Ok(edition) => Ok(edition),
                Err(()) => Err(possible_values(Edition::cli_token_list().as_slice())),
            }
        }
    }
}

impl CrateNameBuf {
    /// Reads a crate name as it is written on the command line: hyphens
    /// are taken for underscores, and what comes of that has to be a crate
    /// name.
    pub fn parse_cli_style(source: &str) -> (parsed: Result<CrateNameBuf, &'static str>)
        ensures
            parsed is Ok <==> is_crate_name(adjust(source@)),
            parsed matches Ok(name) ==> name@ == adjust(source@),
            parsed matches Err(message) ==> message@ == "not a non-empty alphanumeric string"@,
    {
        match CrateNameBuf::adjust_and_parse(source) {
            Ok(name) => Ok(name),
            Err(()) => Err("not a non-empty alphanumeric string"),
        }
    }
}

impl CrateType {
    /// Everything that the command line accepts for a crate type.
    pub open spec fn cli_tokens() -> Seq<Seq<char>> {
        seq!["bin"@, "lib"@, "rlib"@, "proc-macro"@]
    }

    /// Reads a crate type as it is written on the command line. The error
    /// lists the four values that the command line accepts, whatever the
    /// canonical names are.
    pub fn parse_cli_style(source: &str) -> (parsed: Result<CrateType, String>)
        ensures
            match CrateType::named(source@) {
                Some(crate_type) => parsed == Ok::<CrateType, String>(crate_type),
                None => parsed matches Err(message) && message@ == possible_values_text(
                    CrateType::cli_tokens(),
                ),
            },
    {
        match CrateType::parse(source) {
            Ok(crate_type) => Ok(crate_type),
            Err(()) => {
                let tokens = ["bin", "lib", "rlib", "proc-macro"];
                assert(slice_texts(tokens@) =~= CrateType::cli_tokens());
                Err(possible_values(tokens.as_slice()))
            },
        }
    }
}

/// The sentence of possible values holds every value between backticks.
pub proof fn lemma_possible_values_lists_each(values: Seq<Seq<char>>, index: int)
    requires
        0 <= index < values.len(),
    ensures
        occurs_in(quoted(values[index]), possible_values_text(values)),
{
    let items = values.map_values(|value: Seq<char>| quoted(value));
    let list = joined(items, ", "@);
    lemma_joined_holds_items(items, ", "@, index);
    let (before, after) = choose|before: Seq<char>, after: Seq<char>|
        list == #[trigger] (before + items[index] + after);
    assert(possible_values_text(values) =~= ("possible values: "@ + before) + quoted(
        values[index],
    ) + after);
}

/// An edition that cannot be read is answered with the sentence that lists
/// the five canonical names and the three shorthands, in this order.
pub proof fn lemma_edition_choices()
    ensures
        possible_values_text(Edition::cli_tokens())
            == "possible values: `2015`, `2018`, `2021`, `2024`, `future`, `D`, `S`, `U`"@,
{
    reveal_strlit("possible values: `2015`, `2018`, `2021`, `2024`, `future`, `D`, `S`, `U`");
    reveal_strlit("possible values: ");
    reveal_strlit(", ");
    reveal_strlit("`");
    reveal_strlit("2015");
    reveal_strlit("2018");
    reveal_strlit("2021");
    reveal_strlit("2024");
    reveal_strlit("future");
    reveal_strlit("D");
    reveal_strlit("S");
    reveal_strlit("U");
    reveal_with_fuel(joined, 9);
}

/// A crate type that cannot be read is answered with the sentence that
/// lists the four values of the command line, and nothing else.
pub proof fn lemma_crate_type_choices()
    ensures
        possible_values_text(CrateType::cli_tokens())
            == "possible values: `bin`, `lib`, `rlib`, `proc-macro`"@,
{
    reveal_strlit("possible values: `bin`, `lib`, `rlib`, `proc-macro`");
    reveal_strlit("possible values: ");
    reveal_strlit(", ");
    reveal_strlit("`");
    reveal_strlit("bin");
    reveal_strlit("lib");
    reveal_strlit("rlib");
    reveal_strlit("proc-macro");
    reveal_with_fuel(joined, 5);
}

/// The texts that are read as an edition are the very texts that the error
/// lists.
pub proof fn lemma_edition_accepts_what_it_lists(source: Seq<char>)
    ensures
        Edition::cli_named(source) is Some <==> Edition::cli_tokens().contains(source),
{
    let tokens = Edition::cli_tokens();
    assert(tokens.len() == 8);
    if Edition::cli_named(source) is Some {
        if source == "D"@ {
            assert(tokens[5] == source);
        } else if source == "S"@ {
            assert(tokens[6] == source);
        } else if source == "U"@ {
            assert(tokens[7] == source);
        } else {
            let edition = Edition::named(source)->0;
            lemma_edition_named_by_its_name(source, edition);
            let index = choose|index: int|
                0 <= index < Edition::all().len() && Edition::all()[index] == edition;
            assert(tokens[index] == source);
        }
    }
    if tokens.contains(source) {
        let index = choose|index: int| 0 <= index < tokens.len() && tokens[index] == source;
        if index < 5 {
            lemma_edition_named_by_its_name(source, Edition::all()[index]);
        }
    }
}

/// The texts that are read as a crate type are the very texts that the
/// error lists.
pub proof fn lemma_crate_type_accepts_what_it_lists(source: Seq<char>)
    ensures
        CrateType::named(source) is Some <==> CrateType::cli_tokens().contains(source),
{
    let tokens = CrateType::cli_tokens();
    if CrateType::named(source) is Some {
        let index: int = match CrateType::named(source)->0 {
            CrateType::Bin => 0,
            CrateType::Lib => 1,
            CrateType::Rlib => 2,
            CrateType::ProcMacro => 3,
        };
        assert(tokens[index] == source);
    }
    if tokens.contains(source) {
        let index = choose|index: int| 0 <= index < tokens.len() && tokens[index] == source;
        assert(index == 0 || index == 1 || index == 2 || index == 3);
    }
}

/// On a canonical name the command line agrees with the canonical parser:
/// no shorthand is a canonical name.
pub proof fn lemma_cli_style_extends_canonical(edition: Edition)
    ensures
        Edition::cli_named(edition.name()) == Some(edition),
{
    lemma_edition_named_by_its_name(edition.name(), edition);
    reveal_strlit("2015");
    reveal_strlit("2018");
    reveal_strlit("2021");
    reveal_strlit("2024");
    reveal_strlit("future");
    reveal_strlit("D");
    reveal_strlit("S");
    reveal_strlit("U");
    assert("D"@.len() == 1 && "S"@.len() == 1 && "U"@.len() == 1);
}

/// What the user may write for a crate name: nothing but letters, digits,
/// underscores and hyphens, and at least one letter or digit.
pub proof fn lemma_crate_name_as_written(source: Seq<char>)
    ensures
        is_crate_name(adjust(source)) <==> {
            &&& forall|i: int|
                0 <= i < source.len() ==> is_alphanumeric(#[trigger] source[i]) || source[i] == '_'
                    || source[i] == '-'
            &&& exists|i: int| 0 <= i < source.len() && is_alphanumeric(#[trigger] source[i])
        },
{
    let adjusted = adjust(source);
    if is_crate_name(adjusted) {
        let i = choose|i: int| 0 <= i < adjusted.len() && is_alphanumeric(#[trigger] adjusted[i]);
        assert(is_alphanumeric(source[i]));
        assert forall|i: int| 0 <= i < source.len() implies is_alphanumeric(#[trigger] source[i])
            || source[i] == '_' || source[i] == '-' by {
            assert(is_alphanumeric(adjusted[i]) || adjusted[i] == '_');
        }
    }
    if exists|i: int| 0 <= i < source.len() && is_alphanumeric(#[trigger] source[i]) {
        let i = choose|i: int| 0 <= i < source.len() && is_alphanumeric(#[trigger] source[i]);
        assert(is_alphanumeric(adjusted[i]));
    }
}

/// A text of nothing but letters and digits, and at least one of them, is a
/// crate name as it stands.
pub proof fn lemma_alphanumeric_text_is_crate_name(source: Seq<char>)
    requires
        source.len() > 0,
        forall|i: int| 0 <= i < source.len() ==> is_alphanumeric(#[trigger] source[i]),
    ensures
        is_crate_name(adjust(source)),
        adjust(source) == source,
{
    assert(adjust(source) =~= source);
    assert(is_alphanumeric(source[0]));
}

/// A text without any letter or digit is no crate name, however it is
/// adjusted; the empty text is the first of these.
pub proof fn lemma_text_without_alphanumeric_is_no_crate_name(source: Seq<char>)
    requires
        forall|i: int| 0 <= i < source.len() ==> !is_alphanumeric(#[trigger] source[i]),
    ensures
        !is_crate_name(adjust(source)),
{
    if is_crate_name(adjust(source)) {
        let i = choose|i: int|
            0 <= i < adjust(source).len() && is_alphanumeric(#[trigger] adjust(source)[i]);
        assert(is_alphanumeric(source[i]));
    }
}

/// `std::path::PathBuf`. The path of the source file is carried along and
/// never looked into.
#[verifier::external_type_specification]
#[verifier::external_body]
pub struct ExPathBuf(PathBuf);

/// When diagnostics are printed in color. This styles the output and has
/// no bearing on what is built.
#[derive(Clone, Copy, PartialEq, Eq, Debug, Structural)]
pub enum ColorMode {
    /// In color where the output goes to a terminal that can show it.
    Auto,
    Always,
    Never,
}

impl Default for ColorMode {
    fn default() -> (mode: ColorMode)
        ensures
            mode == ColorMode::Auto,
    {
        ColorMode::Auto
    }
}

/// Flags that concern the program itself and not what it builds.
#[derive(Clone, Copy, PartialEq, Eq, Debug, Structural)]
pub struct ProgramFlags {
    /// Use verbose output.
    pub verbose: bool,
    /// Run through without making any changes.
    pub dry_run: bool,
}

impl Default for ProgramFlags {
    fn default() -> (flags: ProgramFlags)
        ensures
            flags == (ProgramFlags { verbose: false, dry_run: false }),
    {
        ProgramFlags { verbose: false, dry_run: false }
    }
}

/// Flags that are passed on to `rustc` and `rustdoc` in a lowered form.
#[derive(Debug)]
pub struct BuildFlags {
    /// The toolchain to use instead of the default one.
    pub toolchain: Option<String>,
    /// The `cfg`s to enable, in the order given.
    pub cfgs: Vec<String>,
    /// The compiletest revisions to enable, in the order given.
    pub revisions: Vec<String>,
    /// The Cargo-like features to enable, in the order given.
    pub cargo_features: Vec<String>,
    /// The experimental library and language features to enable, in the
    /// order given.
    pub rustc_features: Vec<String>,
    /// Output JSON instead of HTML.
    pub json: bool,
    /// The version of the root crate.
    pub crate_version: Option<String>,
    /// Document private items.
    pub private: bool,
    /// Document hidden items.
    pub hidden: bool,
    /// Document the memory layout of types.
    pub layout: bool,
    /// Generate links to definitions.
    pub link_to_definition: bool,
    /// Normalize types and constants.
    pub normalize: bool,
    /// The theme of the generated pages.
    pub theme: String,
    /// The level at which lints are capped.
    pub cap_lints: Option<String>,
    /// Have `rustc` print its internals verbosely.
    pub rustc_verbose_internals: bool,
    /// Have `rustc` log at the level `debug`.
    pub log: bool,
    /// Suppress backtraces.
    pub no_backtrace: bool,
}

impl BuildFlags {
    /// Whether the flags are those of a command line that gives none: every
    /// toggle off, every value absent, every list empty, the theme `ayu`.
    pub open spec fn is_default(self) -> bool {
        &&& self.toolchain is None
        &&& self.cfgs@.len() == 0
        &&& self.revisions@.len() == 0
        &&& self.cargo_features@.len() == 0
        &&& self.rustc_features@.len() == 0
        &&& !self.json
        &&& self.crate_version is None
        &&& !self.private
        &&& !self.hidden
        &&& !self.layout
        &&& !self.link_to_definition
        &&& !self.normalize
        &&& self.theme@ == "ayu"@
        &&& self.cap_lints is None
        &&& !self.rustc_verbose_internals
        &&& !self.log
        &&& !self.no_backtrace
    }
}

impl Default for BuildFlags {
    fn default() -> (flags: BuildFlags)
        ensures
            flags.is_default(),
    {
        BuildFlags {
            toolchain: None,
            cfgs: Vec::new(),
            revisions: Vec::new(),
            cargo_features: Vec::new(),
            rustc_features: Vec::new(),
            json: false,
            crate_version: None,
            private: false,
            hidden: false,
            layout: false,
            link_to_definition: false,
            normalize: false,
            theme: String::from_str("ayu"),
            cap_lints: None,
            rustc_verbose_internals: false,
            log: false,
            no_backtrace: false,
        }
    }
}

/// A rule between the arguments that a command line breaks.
#[derive(Clone, Copy, PartialEq, Eq, Debug, Structural)]
pub enum Violation {
    /// `--query` without `--compiletest`.
    QueryWithoutCompiletest,
    /// `--query` together with `--cross-crate`.
    QueryWithCrossCrate,
    /// `--compiletest` together with `--cross-crate`.
    CompiletestWithCrossCrate,
    /// `--rev` without `--compiletest`.
    RevisionWithoutCompiletest,
    /// `--json` together with `--open`.
    JsonWithOpen,
}

impl Violation {
    /// The sentence that tells the user of the violation.
    pub open spec fn text(self) -> Seq<char> {
        match self {
            Violation::QueryWithoutCompiletest => "`--query` requires `--compiletest`"@,
            Violation::QueryWithCrossCrate => "`--query` cannot be used with `--cross-crate`"@,
            Violation::CompiletestWithCrossCrate =>
                "`--compiletest` cannot be used with `--cross-crate`"@,
            Violation::RevisionWithoutCompiletest => "`--rev` requires `--compiletest`"@,
            Violation::JsonWithOpen => "`--json` cannot be used with `--open`"@,
        }
    }

    /// The sentence that tells the user of the violation.
    pub fn message(self) -> (message: &'static str)
        ensures
            message@ == self.text(),
    {
        match self {
            Violation::QueryWithoutCompiletest => "`--query` requires `--compiletest`",
            Violation::QueryWithCrossCrate => "`--query` cannot be used with `--cross-crate`",
            Violation::CompiletestWithCrossCrate =>
                "`--compiletest` cannot be used with `--cross-crate`",
            Violation::RevisionWithoutCompiletest => "`--rev` requires `--compiletest`",
            Violation::JsonWithOpen => "`--json` cannot be used with `--open`",
        }
    }
}

/// What a command line amounts to.
#[derive(Debug)]
pub struct Arguments {
    /// Path to the source file.
    pub path: PathBuf,
    /// Flags passed to `rustc` and `rustdoc` verbatim.
    pub verbatim_flags: Vec<String>,
    /// Open the generated docs in a browser.
    pub open: bool,
    /// The name of the (base) crate.
    pub crate_name: Option<CrateNameBuf>,
    /// The type of the (base) crate.
    pub crate_type: Option<CrateType>,
    /// The edition of the source files.
    pub edition: Option<Edition>,
    pub build_flags: BuildFlags,
    /// Enable the cross-crate re-export mode.
    pub cross_crate: bool,
    /// Enable compiletest directives.
    pub compiletest: bool,
    /// Enable XPath and JsonPath queries.
    pub query: bool,
    pub program_flags: ProgramFlags,
    /// When to use color.
    pub color: ColorMode,
}

impl Arguments {
    /// The rule that the arguments break, if they break one. Where they
    /// break several, it is the first in the order of [`Violation`].
    pub open spec fn violation(self) -> Option<Violation> {
        if self.query && !self.compiletest {
            Some(Violation::QueryWithoutCompiletest)
        } else if self.query && self.cross_crate {
            Some(Violation::QueryWithCrossCrate)
        } else if self.compiletest && self.cross_crate {
            Some(Violation::CompiletestWithCrossCrate)
        } else if self.build_flags.revisions@.len() > 0 && !self.compiletest {
            Some(Violation::RevisionWithoutCompiletest)
        } else if self.build_flags.json && self.open {
            Some(Violation::JsonWithOpen)
        } else {
            None
        }
    }

    /// Whether the arguments keep every rule between them: queries and
    /// revisions only with compiletest directives, the cross-crate mode
    /// with neither queries nor compiletest directives, and JSON output
    /// never opened in a browser.
    pub open spec fn is_consistent(self) -> bool {
        &&& self.query ==> self.compiletest
        &&& !(self.query && self.cross_crate)
        &&& !(self.compiletest && self.cross_crate)
        &&& self.build_flags.revisions@.len() > 0 ==> self.compiletest
        &&& !(self.build_flags.json && self.open)
    }

    /// The arguments of a command line that gives the path and nothing
    /// else.
    pub fn new(path: PathBuf) -> (arguments: Arguments)
        ensures
            arguments.path == path,
            arguments.verbatim_flags@.len() == 0,
            !arguments.open,
            arguments.crate_name is None,
            arguments.crate_type is None,
            arguments.edition is None,
            arguments.build_flags.is_default(),
            !arguments.cross_crate,
            !arguments.compiletest,
            !arguments.query,
            arguments.program_flags == (ProgramFlags { verbose: false, dry_run: false }),
            arguments.color == ColorMode::Auto,
            arguments.is_consistent(),
    {
        Arguments {
            path,
            verbatim_flags: Vec::new(),
            open: false,
            crate_name: None,
            crate_type: None,
            edition: None,
            build_flags: BuildFlags::default(),
            cross_crate: false,
            compiletest: false,
            query: false,
            program_flags: ProgramFlags::default(),
            color: ColorMode::default(),
        }
    }

    /// Holds the arguments to the rules between them. Parsing a command
    /// line ends with this, and fails where it fails.
    pub fn check(&self) -> (checked: Result<(), Violation>)
        ensures
            checked is Ok <==> self.is_consistent(),
            checked == match self.violation() {
                Some(violation) => Err::<(), Violation>(violation),
                None => Ok(()),
            },
            self.query && !self.compiletest ==> checked is Err,
            self.cross_crate && self.compiletest ==> checked is Err,
            self.build_flags.json && self.open ==> checked is Err,
    {
        if self.query && !self.compiletest {
            Err(Violation::QueryWithoutCompiletest)
        } else if self.query && self.cross_crate {
            Err(Violation::QueryWithCrossCrate)
        } else if self.compiletest && self.cross_crate {
            Err(Violation::CompiletestWithCrossCrate)
        } else if self.build_flags.revisions.len() > 0 && !self.compiletest {
            Err(Violation::RevisionWithoutCompiletest)
        } else if self.build_flags.json && self.open {
            Err(Violation::JsonWithOpen)
        } else {
            Ok(())
        }
    }
}

/// The arguments break a rule if and only if they are not consistent, and
/// the rule that is reported is one that they break.
pub proof fn lemma_violation_is_a_broken_rule(arguments: Arguments)
    ensures
        arguments.violation() is None <==> arguments.is_consistent(),
        match arguments.violation() {
            Some(Violation::QueryWithoutCompiletest) => arguments.query && !arguments.compiletest,
            Some(Violation::QueryWithCrossCrate) => arguments.query && arguments.cross_crate,
            Some(Violation::CompiletestWithCrossCrate) => arguments.compiletest
                && arguments.cross_crate,
            Some(Violation::RevisionWithoutCompiletest) => arguments.build_flags.revisions@.len()
                > 0 && !arguments.compiletest,
            Some(Violation::JsonWithOpen) => arguments.build_flags.json && arguments.open,
            None => true,
        },
{
}

} // verus!
