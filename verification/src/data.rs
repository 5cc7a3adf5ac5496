//! The argument model: editions, crate types and crate names in their
//! canonical form.

use crate::text::{push_char, str_eq};
use vstd::prelude::*;

verus! {

/// A language edition that the toolchain supports.
#[derive(Clone, Copy, PartialEq, Eq, Debug, Structural)]
pub enum Edition {
    Rust2015,
    Rust2018,
    Rust2021,
    Rust2024,
    Future,
}

impl Edition {
    /// The edition that the toolchain assumes when none is given.
    pub const DEFAULT: Edition = Edition::Rust2015;

    /// The newest edition that is stable.
    pub const LATEST_STABLE: Edition = Edition::Rust2024;

    /// The newest edition altogether, stable or not.
    pub const BLEEDING_EDGE: Edition = Edition::Future;

    /// The canonical name of the edition, as the toolchain spells it.
    pub open spec fn name(self) -> Seq<char> {
        match self {
            Edition::Rust2015 => "2015"@,
            Edition::Rust2018 => "2018"@,
            Edition::Rust2021 => "2021"@,
            Edition::Rust2024 => "2024"@,
            Edition::Future => "future"@,
        }
    }

    /// Every edition, oldest first.
    pub open spec fn all() -> Seq<Edition> {
        seq![
            Edition::Rust2015,
            Edition::Rust2018,
            Edition::Rust2021,
            Edition::Rust2024,
            Edition::Future,
        ]
    }

    /// The edition that a canonical name stands for.
    pub open spec fn named(name: Seq<char>) -> Option<Edition> {
        if name == Edition::Rust2015.name() {
            Some(Edition::Rust2015)
        } else if name == Edition::Rust2018.name() {
            Some(Edition::Rust2018)
        } else if name == Edition::Rust2021.name() {
            Some(Edition::Rust2021)
        } else if name == Edition::Rust2024.name() {
            Some(Edition::Rust2024)
        } else if name == Edition::Future.name() {
            Some(Edition::Future)
        } else {
            None
        }
    }

    /// Every edition, oldest first.
    pub fn elements() -> (editions: Vec<Edition>)
        ensures
            editions@ == Edition::all(),
    {
        let editions = vec![
            Edition::Rust2015,
            Edition::Rust2018,
            Edition::Rust2021,
            Edition::Rust2024,
            Edition::Future,
        ];
        editions
    }

    /// Reads a canonical name. Nothing but the five names is accepted, and
    /// they are matched to the letter.
    pub fn parse(source: &str) -> (parsed: Result<Edition, ()>)
        ensures
            parsed == match Edition::named(source@) {
                Some(edition) => Ok::<Edition, ()>(edition),
                None => Err(()),
            },
    {
        if str_eq(source, "2015") {
            Ok(Edition::Rust2015)
        } else if str_eq(source, "2018") {
            Ok(Edition::Rust2018)
        } else if str_eq(source, "2021") {
            Ok(Edition::Rust2021)
        } else if str_eq(source, "2024") {
            Ok(Edition::Rust2024)
        } else if str_eq(source, "future") {
            Ok(Edition::Future)
        } else {
            Err(())
        }
    }

    /// The canonical name of the edition.
    pub fn to_str(self) -> (name: &'static str)
        ensures
            name@ == self.name(),
    {
        match self {
            Edition::Rust2015 => "2015",
            Edition::Rust2018 => "2018",
            Edition::Rust2021 => "2021",
            Edition::Rust2024 => "2024",
            Edition::Future => "future",
        }
    }
}

impl Default for Edition {
    fn default() -> (edition: Edition)
        ensures
            edition == Edition::DEFAULT,
    {
        Edition::DEFAULT
    }
}

/// The names of the editions tell them apart: a name stands for an edition
/// if and only if it is the name of that edition.
pub proof fn lemma_edition_named_by_its_name(name: Seq<char>, edition: Edition)
    ensures
        Edition::named(name) == Some(edition) <==> name == edition.name(),
{
    reveal_strlit("2015");
    reveal_strlit("2018");
    reveal_strlit("2021");
    reveal_strlit("2024");
    reveal_strlit("future");
    let own = edition.name();
    assert(own.len() == 4 ==> own[3] == '5' || own[3] == '8' || own[3] == '1' || own[3] == '4');
}

/// The kind of artefact that a crate is compiled to.
#[derive(Clone, Copy, PartialEq, Eq, Debug, Structural)]
pub enum CrateType {
    Bin,
    Lib,
    Rlib,
    ProcMacro,
}

impl CrateType {
    /// The canonical name of the crate type, as the toolchain spells it.
    pub open spec fn name(self) -> Seq<char> {
        match self {
            CrateType::Bin => "bin"@,
            CrateType::Lib => "lib"@,
            CrateType::Rlib => "rlib"@,
            CrateType::ProcMacro => "proc-macro"@,
        }
    }

    /// The crate type that a canonical name stands for.
    pub open spec fn named(name: Seq<char>) -> Option<CrateType> {
        if name == CrateType::Bin.name() {
            Some(CrateType::Bin)
        } else if name == CrateType::Lib.name() {
            Some(CrateType::Lib)
        } else if name == CrateType::Rlib.name() {
            Some(CrateType::Rlib)
        } else if name == CrateType::ProcMacro.name() {
            Some(CrateType::ProcMacro)
        } else {
            None
        }
    }

    /// Reads a canonical name. Nothing but the four names is accepted, and
    /// they are matched to the letter.
    pub fn parse(source: &str) -> (parsed: Result<CrateType, ()>)
        ensures
            parsed == match CrateType::named(source@) {
                Some(crate_type) => Ok::<CrateType, ()>(crate_type),
                None => Err(()),
            },
    {
        if str_eq(source, "bin") {
            Ok(CrateType::Bin)
        } else if str_eq(source, "lib") {
            Ok(CrateType::Lib)
        } else if str_eq(source, "rlib") {
            Ok(CrateType::Rlib)
        } else if str_eq(source, "proc-macro") {
            Ok(CrateType::ProcMacro)
        } else {
            Err(())
        }
    }

    /// The canonical name of the crate type.
    pub fn to_str(self) -> (name: &'static str)
        ensures
            name@ == self.name(),
    {
        match self {
            CrateType::Bin => "bin",
            CrateType::Lib => "lib",
            CrateType::Rlib => "rlib",
            CrateType::ProcMacro => "proc-macro",
        }
    }
}

/// The names of the crate types tell them apart: a name stands for a crate
/// type if and only if it is the name of that crate type.
pub proof fn lemma_crate_type_named_by_its_name(name: Seq<char>, crate_type: CrateType)
    ensures
        CrateType::named(name) == Some(crate_type) <==> name == crate_type.name(),
{
    reveal_strlit("bin");
    reveal_strlit("lib");
    reveal_strlit("rlib");
    reveal_strlit("proc-macro");
    let own = crate_type.name();
    assert(own.len() == 3 ==> own[0] == 'b' || own[0] == 'l');
}

/// Whether a character is an ASCII letter or digit.
pub open spec fn alphanumeric(c: char) -> bool {
    ||| '0' <= c <= '9'
    ||| 'a' <= c <= 'z'
    ||| 'A' <= c <= 'Z'
}

/// Whether a character is an ASCII letter or digit.
#[verifier::when_used_as_spec(alphanumeric)]
pub fn is_alphanumeric(c: char) -> (answer: bool)
    ensures
        answer == alphanumeric(c),
{
    ('0' <= c && c <= '9') || ('a' <= c && c <= 'z') || ('A' <= c && c <= 'Z')
}

/// A character of a crate name as the user may write it, in the form in
/// which the name holds it: the hyphen becomes an underscore.
pub open spec fn adjust_char(c: char) -> char {
    if c == '-' {
        '_'
    } else {
        c
    }
}

/// A text with every hyphen turned into an underscore.
pub open spec fn adjust(source: Seq<char>) -> Seq<char> {
    source.map_values(|c: char| adjust_char(c))
}

/// Whether a text is a crate name: nothing but ASCII letters, digits and
/// underscores, and at least one letter or digit.
pub open spec fn is_crate_name(name: Seq<char>) -> bool {
    &&& forall|i: int|
        0 <= i < name.len() ==> is_alphanumeric(#[trigger] name[i]) || name[i] == '_'
    &&& exists|i: int| 0 <= i < name.len() && is_alphanumeric(#[trigger] name[i])
}

/// The name of a crate: ASCII letters, digits and underscores, at least
/// one of them a letter or a digit.
#[derive(PartialEq, Eq, Debug)]
pub struct CrateNameBuf {
    name: String,
}

impl View for CrateNameBuf {
    type V = Seq<char>;

    closed spec fn view(&self) -> Seq<char> {
        self.name@
    }
}

impl Clone for CrateNameBuf {
    fn clone(&self) -> (copy: CrateNameBuf)
        ensures
            copy@ == self@,
    {
        proof {
            use_type_invariant(self);
        }
        CrateNameBuf { name: self.name.clone() }
    }
}

impl CrateNameBuf {
    #[verifier::type_invariant]
    spec fn well_formed(self) -> bool {
        is_crate_name(self.name@)
    }

    /// Makes a crate name of what the user wrote.
    ///
    /// The text is adjusted first, every hyphen becoming an underscore, and
    /// validated second: it has to be a crate name then. The name comes out
    /// whole or not at all.
    pub fn adjust_and_parse(source: &str) -> (parsed: Result<CrateNameBuf, ()>)
        ensures
            parsed is Ok <==> is_crate_name(adjust(source@)),
            parsed matches Ok(name) ==> name@ == adjust(source@),
    {
        let mut name = String::new();
        let mut alphanumeric_seen = false;
        for c in chars: source.chars()
            invariant
                chars.seq() == source@,
                name@ == adjust(source@).take(chars.index()),
                forall|i: int|
                    0 <= i < chars.index() ==> is_alphanumeric(#[trigger] adjust(source@)[i])
                        || adjust(source@)[i] == '_',
                alphanumeric_seen <==> exists|i: int|
                    0 <= i < chars.index() && is_alphanumeric(#[trigger] adjust(source@)[i]),
        {
            let adjusted = if c == '-' {
                '_'
            } else {
                c
            };
            assert(adjust(source@)[chars.index()] == adjusted);
            if is_alphanumeric(adjusted) {
                alphanumeric_seen = true;
            } else if adjusted != '_' {
                return Err(());
            }
            push_char(&mut name, adjusted);
        }
        assert(name@ =~= adjust(source@));
        if alphanumeric_seen {
            Ok(CrateNameBuf { name })
        } else {
            Err(())
        }
    }

    /// The name as text.
    pub fn as_str(&self) -> (name: &str)
        ensures
            name@ == self@,
            is_crate_name(name@),
    {
        proof {
            use_type_invariant(self);
        }
        self.name.as_str()
    }
}

} // verus!
