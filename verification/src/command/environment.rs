//! Flags that reach the toolchain through the process environment.
//!
//! `RUSTFLAGS` and `RUSTDOCFLAGS` each hold shell-style words. Resolving one
//! of them never fails: whatever is wrong with the environment degrades to
//! "no flags" and a [`Warning`] for the caller to print.

use crate::text::{clone_strings, occurs_in, quoted, slice_texts, texts};
use rustc_hash::{FxBuildHasher, FxHashMap};
use vstd::prelude::*;
use vstd::string::{StringExecFns, StringSliceAdditionalSpecFns};
use vstd::utf8::{decode_utf8, encode_utf8, encode_utf8_decode_utf8, valid_utf8};

verus! {

/// `rustc_hash::FxBuildHasher`, the hasher of the map that holds the
/// environment. Nothing is said of what it computes.
#[verifier::external_type_specification]
#[verifier::external_body]
pub struct ExFxBuildHasher(FxBuildHasher);

/// The variables that a map holds: each name with its value, both as the
/// bytes that were stored.
pub uninterp spec fn stored_variables(map: FxHashMap<Vec<u8>, Vec<u8>>) -> Map<Seq<u8>, Seq<u8>>;

/// The environment in which no variable is set.
pub open spec fn no_variables() -> Map<Seq<u8>, Seq<u8>> {
    Map::empty()
}

/// The words that `shlex::split` makes of a text, or `None` where it finds
/// the text malformed.
pub uninterp spec fn shell_words(text: Seq<char>) -> Option<Seq<Seq<char>>>;

/// `rustc_hash::FxHashMap::default`: a map that holds no variable.
#[verifier::external_body]
fn empty_map() -> (created: FxHashMap<Vec<u8>, Vec<u8>>)
    ensures
        stored_variables(created) == no_variables(),
{
    FxHashMap::default()
}

/// `HashMap::insert` on an `FxHashMap`: afterwards the name stands for the
/// value, whatever it stood for before, and every other name is untouched.
#[verifier::external_body]
fn map_insert(map: &mut FxHashMap<Vec<u8>, Vec<u8>>, name: Vec<u8>, value: Vec<u8>)
    ensures
        stored_variables(*final(map)) == stored_variables(*old(map)).insert(name@, value@),
{
    map.insert(name, value);
}

/// `HashMap::contains_key` on an `FxHashMap`: whether the name is stored.
#[verifier::external_body]
fn map_contains_key(map: &FxHashMap<Vec<u8>, Vec<u8>>, name: &[u8]) -> (present: bool)
    ensures
        present == stored_variables(*map).dom().contains(name@),
{
    map.contains_key(name)
}

/// `HashMap::get` on an `FxHashMap`: the value stored under the name, if
/// the name is stored.
#[verifier::external_body]
fn map_get<'a>(map: &'a FxHashMap<Vec<u8>, Vec<u8>>, name: &[u8]) -> (value: Option<&'a Vec<u8>>)
    ensures
        value is Some <==> stored_variables(*map).dom().contains(name@),
        value matches Some(bytes) ==> bytes@ == stored_variables(*map)[name@],
{
    map.get(name)
}

/// `std::str::from_utf8`: the bytes taken as text, if they are valid UTF-8,
/// and nothing otherwise. The text is made of the very bytes that were
/// given.
#[verifier::external_body]
fn decode_text(bytes: &[u8]) -> (text: Option<&str>)
    ensures
        text is Some <==> valid_utf8(bytes@),
        text matches Some(decoded) ==> decoded.spec_bytes() == bytes@,
{
    std::str::from_utf8(bytes).ok()
}

/// `shlex::split`: the text split into words by the rules of the POSIX
/// shell. The contract only names the outcome; it is the same for the same
/// text.
#[verifier::external_body]
fn split_words(text: &str) -> (words: Option<Vec<String>>)
    ensures
        shell_words(text@) == word_texts(words),
{
    shlex::split(text)
}

/// The words of a split as plain text.
pub open spec fn word_texts(words: Option<Vec<String>>) -> Option<Seq<Seq<char>>> {
    match words {
        Some(words) => Some(texts(words@)),
        None => None,
    }
}

/// A snapshot of the process environment: variable names and their values,
/// both as the bytes the operating system handed over.
pub struct Environment {
    variables: FxHashMap<Vec<u8>, Vec<u8>>,
}

impl View for Environment {
    type V = Map<Seq<u8>, Seq<u8>>;

    closed spec fn view(&self) -> Map<Seq<u8>, Seq<u8>> {
        stored_variables(self.variables)
    }
}

impl Environment {
    /// An environment in which no variable is set.
    pub fn new() -> (environment: Environment)
        ensures
            environment@ == no_variables(),
    {
        Environment { variables: empty_map() }
    }

    /// Sets a variable, replacing the value it had if it was set.
    pub fn insert(&mut self, name: Vec<u8>, value: Vec<u8>)
        ensures
            final(self)@ == old(self)@.insert(name@, value@),
    {
        map_insert(&mut self.variables, name, value);
    }

    /// Whether the variable is set.
    pub fn contains(&self, name: &[u8]) -> (present: bool)
        ensures
            present == self@.dom().contains(name@),
    {
        map_contains_key(&self.variables, name)
    }

    /// The value of the variable, if it is set.
    pub fn get(&self, name: &[u8]) -> (value: Option<&Vec<u8>>)
        ensures
            value is Some <==> self@.dom().contains(name@),
            value matches Some(bytes) ==> bytes@ == self@[name@],
    {
        map_get(&self.variables, name)
    }
}

/// Something about the environment that the user should hear of. None of
/// it stops the run.
#[derive(PartialEq, Eq, Debug)]
pub enum Warning {
    /// A variable is set whose name is easily mistaken for one that is read.
    Confusable { found: String, meant: String },
    /// The variable is set, but not to valid UTF-8.
    NotText { variable: String },
    /// The variable is set to text that does not split into shell words.
    Malformed { variable: String },
}

/// A [`Warning`] as plain text.
pub enum WarningView {
    Confusable { found: Seq<char>, meant: Seq<char> },
    NotText { variable: Seq<char> },
    Malformed { variable: Seq<char> },
}

impl WarningView {
    /// The sentence that tells the user of the warning.
    pub open spec fn message(self) -> Seq<char> {
        match self {
            WarningView::Confusable { found, meant } => "rruxwry does not read the `"@ + found
                + "` environment variable; you might have meant `"@ + meant + "`"@,
            WarningView::NotText { variable } => "the environment variable `"@ + variable
                + "` does not contain valid UTF-8; ignoring all potential flags"@,
            WarningView::Malformed { variable } => "the environment variable `"@ + variable
                + "` is not well-formed; ignoring all potential flags"@,
        }
    }
}

impl View for Warning {
    type V = WarningView;

    open spec fn view(&self) -> WarningView {
        match self {
            Warning::Confusable { found, meant } => WarningView::Confusable {
                found: found@,
                meant: meant@,
            },
            Warning::NotText { variable } => WarningView::NotText { variable: variable@ },
            Warning::Malformed { variable } => WarningView::Malformed { variable: variable@ },
        }
    }
}

impl Clone for Warning {
    fn clone(&self) -> (copy: Warning)
        ensures
            copy@ == self@,
    {
        match self {
            Warning::Confusable { found, meant } => Warning::Confusable {
                found: found.clone(),
                meant: meant.clone(),
            },
            Warning::NotText { variable } => Warning::NotText { variable: variable.clone() },
            Warning::Malformed { variable } => Warning::Malformed { variable: variable.clone() },
        }
    }
}

impl Warning {
    /// The sentence that tells the user of the warning, without any tag in
    /// front of it.
    pub fn message(&self) -> (message: String)
        ensures
            message@ == self@.message(),
    {
        match self {
            Warning::Confusable { found, meant } => {
                let mut message = String::from_str("rruxwry does not read the `");
                message.append(found.as_str());
                message.append("` environment variable; you might have meant `");
                message.append(meant.as_str());
                message.append("`");
                message
            },
            Warning::NotText { variable } => {
                let mut message = String::from_str("the environment variable `");
                message.append(variable.as_str());
                message.append("` does not contain valid UTF-8; ignoring all potential flags");
                message
            },
            Warning::Malformed { variable } => {
                let mut message = String::from_str("the environment variable `");
                message.append(variable.as_str());
                message.append("` is not well-formed; ignoring all potential flags");
                message
            },
        }
    }
}

/// The views of a sequence of warnings.
pub open spec fn warning_views(warnings: Seq<Warning>) -> Seq<WarningView> {
    warnings.map_values(|warning: Warning| warning@)
}

/// What resolving one variable gives: its flags, if it supplies any, and
/// the warnings that came up on the way.
///
/// `flags` is `None` where the variable is unset or unusable; a variable
/// that is set to nothing but blanks supplies `Some` of no flags.
#[derive(PartialEq, Eq, Debug)]
pub struct Resolution {
    pub flags: Option<Vec<String>>,
    pub warnings: Vec<Warning>,
}

/// A [`Resolution`] as plain text.
pub struct ResolutionView {
    pub flags: Option<Seq<Seq<char>>>,
    pub warnings: Seq<WarningView>,
}

impl View for Resolution {
    type V = ResolutionView;

    open spec fn view(&self) -> ResolutionView {
        ResolutionView { flags: word_texts(self.flags), warnings: warning_views(self.warnings@) }
    }
}

impl Clone for Resolution {
    fn clone(&self) -> (copy: Resolution)
        ensures
            copy@ == self@,
    {
        let mut warnings: Vec<Warning> = Vec::new();
        let mut index: usize = 0;
        while index < self.warnings.len()
            invariant
                index <= self.warnings@.len(),
                warning_views(warnings@) == warning_views(self.warnings@).take(index as int),
            decreases self.warnings@.len() - index,
        {
            let ghost earlier = warning_views(warnings@);
            let copy = self.warnings[index].clone();
            warnings.push(copy);
            assert(warning_views(warnings@) =~= earlier.push(copy@));
            index += 1;
        }
        assert(warning_views(warnings@) =~= warning_views(self.warnings@));
        Resolution { flags: clone_flags(&self.flags), warnings }
    }
}

/// The name under which the environment stores a variable.
pub open spec fn stored_name(name: Seq<char>) -> Seq<u8> {
    encode_utf8(name)
}

/// One warning for each confusable name that is set, in the order of the
/// names.
pub open spec fn confusable_warnings(
    key: Seq<char>,
    confusables: Seq<Seq<char>>,
    environment: Map<Seq<u8>, Seq<u8>>,
) -> Seq<WarningView>
    decreases confusables.len(),
{
    if confusables.len() == 0 {
        seq![]
    } else {
        let earlier = confusable_warnings(key, confusables.drop_last(), environment);
        if environment.dom().contains(stored_name(confusables.last())) {
            earlier.push(WarningView::Confusable { found: confusables.last(), meant: key })
        } else {
            earlier
        }
    }
}

/// What the outcome of splitting a variable's text amounts to: the words as
/// flags, or no flags and one more warning.
pub open spec fn split_resolution(
    key: Seq<char>,
    words: Option<Seq<Seq<char>>>,
    warnings: Seq<WarningView>,
) -> ResolutionView {
    match words {
        Some(words) => ResolutionView { flags: Some(words), warnings },
        None => ResolutionView {
            flags: None,
            warnings: warnings.push(WarningView::Malformed { variable: key }),
        },
    }
}

/// What a variable's value amounts to, if it has one.
pub open spec fn value_resolution(
    key: Seq<char>,
    value: Option<Seq<u8>>,
    warnings: Seq<WarningView>,
) -> ResolutionView {
    match value {
        None => ResolutionView { flags: None, warnings },
        Some(bytes) => if valid_utf8(bytes) {
            split_resolution(key, shell_words(decode_utf8(bytes)), warnings)
        } else {
            ResolutionView {
                flags: None,
                warnings: warnings.push(WarningView::NotText { variable: key }),
            }
        },
    }
}

/// The value that the environment holds for a variable, if it is set.
pub open spec fn lookup(environment: Map<Seq<u8>, Seq<u8>>, name: Seq<char>) -> Option<Seq<u8>> {
    if environment.dom().contains(stored_name(name)) {
        Some(environment[stored_name(name)])
    } else {
        None
    }
}

/// The resolution of the variable `key` in an environment: a warning for
/// every confusable name that is set, then what the value of `key` itself
/// amounts to.
pub open spec fn resolution(
    key: Seq<char>,
    confusables: Seq<Seq<char>>,
    environment: Map<Seq<u8>, Seq<u8>>,
) -> ResolutionView {
    value_resolution(
        key,
        lookup(environment, key),
        confusable_warnings(key, confusables, environment),
    )
}

/// Concludes a resolution from the outcome of splitting the variable's
/// text: the words become the flags; where there are none to be had, the
/// variable is reported as malformed.
pub fn flags_from_words(key: &str, words: Option<Vec<String>>, warnings: Vec<Warning>) -> (resolved:
    Resolution)
    ensures
        resolved@ == split_resolution(key@, word_texts(words), warning_views(warnings@)),
{
    let ghost earlier = warning_views(warnings@);
    let mut warnings = warnings;
    match words {
        Some(words) => Resolution { flags: Some(words), warnings },
        None => {
            warnings.push(Warning::Malformed { variable: String::from_str(key) });
            assert(warning_views(warnings@) =~= earlier.push(
                WarningView::Malformed { variable: key@ },
            ));
            Resolution { flags: None, warnings }
        },
    }
}

/// Resolves the variable `key`.
///
/// Every name among `confusables` that is set earns a warning, and is not
/// read any further. The value of `key` supplies the flags: it is decoded as
/// UTF-8 and split into words as a POSIX shell would split it. Where the
/// variable is unset there are no flags; where its value cannot be decoded
/// or split there are none either, and a warning says why.
pub fn parse_flags(key: &str, confusables: &[&str], environment: &Environment) -> (resolved:
    Resolution)
    ensures
        resolved@ == resolution(key@, slice_texts(confusables@), environment@),
{
    let mut warnings: Vec<Warning> = Vec::new();
    let mut index: usize = 0;
    while index < confusables.len()
        invariant
            index <= confusables@.len(),
            warning_views(warnings@) == confusable_warnings(
                key@,
                slice_texts(confusables@).take(index as int),
                environment@,
            ),
        decreases confusables@.len() - index,
    {
        let confusable = confusables[index];
        let ghost confusable_names = slice_texts(confusables@);
        assert(confusable_names.take(index + 1).drop_last() =~= confusable_names.take(
            index as int,
        ));
        if environment.contains(confusable.as_bytes()) {
            warnings.push(
                Warning::Confusable {
                    found: String::from_str(confusable),
                    meant: String::from_str(key),
                },
            );
        }
        index += 1;
    }
    assert(slice_texts(confusables@).take(index as int) =~= slice_texts(confusables@));
    let value = match environment.get(key.as_bytes()) {
        Some(value) => value,
        None => {
            return Resolution { flags: None, warnings };
        },
    };
    let text = match decode_text(value.as_slice()) {
        Some(text) => {
            proof {
                encode_utf8_decode_utf8(text@);
            }
            text
        },
        None => {
            let ghost earlier = warning_views(warnings@);
            warnings.push(Warning::NotText { variable: String::from_str(key) });
            assert(warning_views(warnings@) =~= earlier.push(
                WarningView::NotText { variable: key@ },
            ));
            return Resolution { flags: None, warnings };
        },
    };
    flags_from_words(key, split_words(text), warnings)
}

/// A variable of the environment that supplies flags.
#[derive(Clone, Copy, PartialEq, Eq, Debug, Structural)]
pub enum Variable {
    /// `RUSTFLAGS`, the extra flags for `rustc`.
    Rustflags,
    /// `RUSTDOCFLAGS`, the extra flags for `rustdoc`.
    Rustdocflags,
}

impl Variable {
    /// The name of the variable.
    pub open spec fn name(self) -> Seq<char> {
        match self {
            Variable::Rustflags => "RUSTFLAGS"@,
            Variable::Rustdocflags => "RUSTDOCFLAGS"@,
        }
    }

    /// The names that users set when they mean the variable. None of them
    /// is read.
    pub open spec fn confusable_names(self) -> Seq<Seq<char>> {
        match self {
            Variable::Rustflags => seq!["RUST_FLAGS"@, "RUSTCFLAGS"@, "RUSTC_FLAGS"@],
            Variable::Rustdocflags => seq!["RUSTDOC_FLAGS"@],
        }
    }

    /// What the variable supplies in an environment.
    pub open spec fn resolution(self, environment: Map<Seq<u8>, Seq<u8>>) -> ResolutionView {
        resolution(self.name(), self.confusable_names(), environment)
    }

    /// The name of the variable.
    pub fn key(self) -> (key: &'static str)
        ensures
            key@ == self.name(),
    {
        match self {
            Variable::Rustflags => "RUSTFLAGS",
            Variable::Rustdocflags => "RUSTDOCFLAGS",
        }
    }

    /// The names that users set when they mean the variable.
    pub fn confusables(self) -> (confusables: Vec<&'static str>)
        ensures
            slice_texts(confusables@) == self.confusable_names(),
    {
        let confusables = match self {
            Variable::Rustflags => vec!["RUST_FLAGS", "RUSTCFLAGS", "RUSTC_FLAGS"],
            Variable::Rustdocflags => vec!["RUSTDOC_FLAGS"],
        };
        assert(slice_texts(confusables@) =~= self.confusable_names());
        confusables
    }

    /// Resolves the variable in an environment.
    pub fn resolve(self, environment: &Environment) -> (resolved: Resolution)
        ensures
            resolved@ == self.resolution(environment@),
    {
        parse_flags(self.key(), self.confusables().as_slice(), environment)
    }
}

/// The message of a warning names, between backticks, every variable that
/// the warning is about.
pub proof fn lemma_message_names_the_variables(warning: WarningView)
    ensures
        match warning {
            WarningView::Confusable { found, meant } => occurs_in(quoted(found), warning.message())
                && occurs_in(quoted(meant), warning.message()),
            WarningView::NotText { variable } => occurs_in(quoted(variable), warning.message()),
            WarningView::Malformed { variable } => occurs_in(quoted(variable), warning.message()),
        },
{
    reveal_strlit("rruxwry does not read the `");
    reveal_strlit("` environment variable; you might have meant `");
    reveal_strlit("the environment variable `");
    reveal_strlit("` does not contain valid UTF-8; ignoring all potential flags");
    reveal_strlit("` is not well-formed; ignoring all potential flags");
    reveal_strlit("`");
    let message = warning.message();
    match warning {
        WarningView::Confusable { found, meant } => {
            let start = "rruxwry does not read the `"@;
            let middle = "` environment variable; you might have meant `"@;
            assert(message =~= start.drop_last() + quoted(found) + (middle.drop_first() + meant
                + "`"@));
            assert(message =~= (start + found + middle.drop_last()) + quoted(meant)
                + Seq::<char>::empty());
        },
        WarningView::NotText { variable } => {
            let start = "the environment variable `"@;
            let end = "` does not contain valid UTF-8; ignoring all potential flags"@;
            assert(message =~= start.drop_last() + quoted(variable) + end.drop_first());
        },
        WarningView::Malformed { variable } => {
            let start = "the environment variable `"@;
            let end = "` is not well-formed; ignoring all potential flags"@;
            assert(message =~= start.drop_last() + quoted(variable) + end.drop_first());
        },
    }
}

/// A variable that is not set supplies no flags, and the only warnings are
/// those for the confusable names.
pub proof fn lemma_unset_variable_supplies_nothing(
    key: Seq<char>,
    confusables: Seq<Seq<char>>,
    environment: Map<Seq<u8>, Seq<u8>>,
)
    requires
        !environment.dom().contains(stored_name(key)),
    ensures
        resolution(key, confusables, environment).flags is None,
        resolution(key, confusables, environment).warnings == confusable_warnings(
            key,
            confusables,
            environment,
        ),
{
}

/// Every confusable name that is set is reported, together with the name
/// that was probably meant, whatever becomes of the variable itself.
pub proof fn lemma_confusable_is_reported(
    key: Seq<char>,
    confusables: Seq<Seq<char>>,
    environment: Map<Seq<u8>, Seq<u8>>,
    index: int,
)
    requires
        0 <= index < confusables.len(),
        environment.dom().contains(stored_name(confusables[index])),
    ensures
        resolution(key, confusables, environment).warnings.contains(
            WarningView::Confusable { found: confusables[index], meant: key },
        ),
{
    let found = WarningView::Confusable { found: confusables[index], meant: key };
    let listed = confusable_warnings(key, confusables, environment);
    lemma_confusable_is_listed(key, confusables, environment, index);
    let at = choose|at: int| 0 <= at < listed.len() && listed[at] == found;
    assert(resolution(key, confusables, environment).warnings[at] == found);
}

proof fn lemma_confusable_is_listed(
    key: Seq<char>,
    confusables: Seq<Seq<char>>,
    environment: Map<Seq<u8>, Seq<u8>>,
    index: int,
)
    requires
        0 <= index < confusables.len(),
        environment.dom().contains(stored_name(confusables[index])),
    ensures
        confusable_warnings(key, confusables, environment).contains(
            WarningView::Confusable { found: confusables[index], meant: key },
        ),
    decreases confusables.len(),
{
    let found = WarningView::Confusable { found: confusables[index], meant: key };
    let listed = confusable_warnings(key, confusables, environment);
    if index == confusables.len() - 1 {
        assert(listed.last() == found);
    } else {
        let earlier = confusable_warnings(key, confusables.drop_last(), environment);
        lemma_confusable_is_listed(key, confusables.drop_last(), environment, index);
        let at = choose|at: int| 0 <= at < earlier.len() && earlier[at] == found;
        assert(listed[at] == found);
    }
}

/// Where a variable that is set supplies no flags, the last warning says
/// why: its value is not text, or the text is malformed.
pub proof fn lemma_no_flags_for_a_reason(
    key: Seq<char>,
    confusables: Seq<Seq<char>>,
    environment: Map<Seq<u8>, Seq<u8>>,
)
    requires
        environment.dom().contains(stored_name(key)),
        resolution(key, confusables, environment).flags is None,
    ensures
        resolution(key, confusables, environment).warnings == confusable_warnings(
            key,
            confusables,
            environment,
        ).push(
            if valid_utf8(environment[stored_name(key)]) {
                WarningView::Malformed { variable: key }
            } else {
                WarningView::NotText { variable: key }
            },
        ),
{
}

/// Where a variable supplies flags, nothing is wrong with it: the only
/// warnings are those for the confusable names.
pub proof fn lemma_flags_without_warning(
    key: Seq<char>,
    confusables: Seq<Seq<char>>,
    environment: Map<Seq<u8>, Seq<u8>>,
)
    requires
        resolution(key, confusables, environment).flags is Some,
    ensures
        environment.dom().contains(stored_name(key)),
        valid_utf8(environment[stored_name(key)]),
        resolution(key, confusables, environment).flags == shell_words(
            decode_utf8(environment[stored_name(key)]),
        ),
        resolution(key, confusables, environment).warnings == confusable_warnings(
            key,
            confusables,
            environment,
        ),
{
}

/// The flags that the environment supplies, for the length of a run.
///
/// The environment is captured once. A variable is resolved when it is
/// first asked for, and the answer is remembered: asking again gives the
/// same flags, and gives the warnings no second time.
pub struct EnvironmentFlags {
    environment: Environment,
    rustflags: Option<Option<Vec<String>>>,
    rustdocflags: Option<Option<Vec<String>>>,
}

/// An [`EnvironmentFlags`] as plain values: the environment, and for each
/// variable the flags that are remembered for it, if it was resolved.
pub struct EnvironmentFlagsView {
    pub environment: Map<Seq<u8>, Seq<u8>>,
    pub rustflags: Option<Option<Seq<Seq<char>>>>,
    pub rustdocflags: Option<Option<Seq<Seq<char>>>>,
}

impl EnvironmentFlagsView {
    /// The flags that are remembered for a variable, if it was resolved.
    pub open spec fn remembered(self, variable: Variable) -> Option<Option<Seq<Seq<char>>>> {
        match variable {
            Variable::Rustflags => self.rustflags,
            Variable::Rustdocflags => self.rustdocflags,
        }
    }

    /// Whether everything that is remembered is what the variable supplies
    /// in the environment.
    pub open spec fn is_faithful(self) -> bool {
        &&& self.rustflags matches Some(flags) ==> flags == Variable::Rustflags.resolution(
            self.environment,
        ).flags
        &&& self.rustdocflags matches Some(flags) ==> flags == Variable::Rustdocflags.resolution(
            self.environment,
        ).flags
    }

    /// The answer to asking for a variable: what is remembered, without a
    /// warning, or else the resolution of the variable.
    pub open spec fn answer(self, variable: Variable) -> ResolutionView {
        match self.remembered(variable) {
            Some(flags) => ResolutionView { flags, warnings: Seq::empty() },
            None => variable.resolution(self.environment),
        }
    }

    /// What is remembered once a variable has been asked for.
    pub open spec fn after(self, variable: Variable) -> EnvironmentFlagsView {
        let flags = Some(self.answer(variable).flags);
        match variable {
            Variable::Rustflags => EnvironmentFlagsView { rustflags: flags, ..self },
            Variable::Rustdocflags => EnvironmentFlagsView { rustdocflags: flags, ..self },
        }
    }
}

/// The flags that are remembered for a variable, as plain text.
pub open spec fn remembered_texts(remembered: Option<Option<Vec<String>>>) -> Option<
    Option<Seq<Seq<char>>>,
> {
    match remembered {
        Some(flags) => Some(word_texts(flags)),
        None => None,
    }
}

impl View for EnvironmentFlags {
    type V = EnvironmentFlagsView;

    closed spec fn view(&self) -> EnvironmentFlagsView {
        EnvironmentFlagsView {
            environment: self.environment@,
            rustflags: remembered_texts(self.rustflags),
            rustdocflags: remembered_texts(self.rustdocflags),
        }
    }
}

impl EnvironmentFlags {
    #[verifier::type_invariant]
    spec fn remembers_truly(self) -> bool {
        self@.is_faithful()
    }

    /// Captures an environment. Nothing is resolved yet.
    pub fn new(environment: Environment) -> (flags: EnvironmentFlags)
        ensures
            flags@ == (EnvironmentFlagsView {
                environment: environment@,
                rustflags: None,
                rustdocflags: None,
            }),
            flags@.is_faithful(),
    {
        EnvironmentFlags { environment, rustflags: None, rustdocflags: None }
    }

    /// The flags that a variable supplies.
    ///
    /// The first call for a variable resolves it and hands out the
    /// warnings with the flags. Every later call hands out the same flags
    /// and no warning. The other variable is left as it is.
    pub fn flags(&mut self, variable: Variable) -> (resolved: Resolution)
        ensures
            resolved@ == old(self)@.answer(variable),
            resolved@.flags == variable.resolution(old(self)@.environment).flags,
            final(self)@ == old(self)@.after(variable),
            final(self)@.is_faithful(),
    {
        proof {
            use_type_invariant(&*self);
        }
        let remembered = match variable {
            Variable::Rustflags => &self.rustflags,
            Variable::Rustdocflags => &self.rustdocflags,
        };
        match remembered {
            Some(flags) => {
                let warnings: Vec<Warning> = Vec::new();
                assert(warning_views(warnings@) =~= Seq::empty());
                Resolution { flags: clone_flags(flags), warnings }
            },
            None => {
                let resolved = variable.resolve(&self.environment);
                let flags = Some(clone_flags(&resolved.flags));
                match variable {
                    Variable::Rustflags => self.rustflags = flags,
                    Variable::Rustdocflags => self.rustdocflags = flags,
                }
                resolved
            },
        }
    }
}

/// A copy of the flags of a variable.
fn clone_flags(flags: &Option<Vec<String>>) -> (copy: Option<Vec<String>>)
    ensures
        word_texts(copy) == word_texts(*flags),
{
    match flags {
        Some(words) => Some(clone_strings(words)),
        None => None,
    }
}

/// Asking for a variable again gives the flags of the first time, gives no
/// warning, and changes nothing; asking for another variable in between
/// makes no difference.
pub proof fn lemma_asking_again_gives_the_same(
    flags: EnvironmentFlagsView,
    variable: Variable,
    other: Variable,
)
    ensures
        flags.after(variable).answer(variable).flags == flags.answer(variable).flags,
        flags.after(variable).answer(variable).warnings.len() == 0,
        flags.after(variable).after(variable) == flags.after(variable),
        flags.after(variable).after(other).answer(variable).flags == flags.answer(variable).flags,
{
}

/// What is handed out is what the variable supplies in the environment
/// that was captured, however often and in whatever order the variables
/// were asked for before.
pub proof fn lemma_answers_are_faithful(flags: EnvironmentFlagsView, variable: Variable)
    requires
        flags.is_faithful(),
    ensures
        flags.answer(variable).flags == variable.resolution(flags.environment).flags,
        flags.after(variable).is_faithful(),
        flags.after(variable).environment == flags.environment,
{
}

} // verus!
