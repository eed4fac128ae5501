//! The sentinel registry and the text/symbol converter.
//!
//! Text goes to a term through [`str_to_term`]: the two reserved
//! spellings `"Ok"` and `"Err"` map to the `ok` and `error` sentinel
//! symbols before any table lookup, and every other piece of text maps
//! to the existing symbol of that name, or is rejected — never interned.
//! A term comes back to text through [`term_to_string`].

use crate::table::{
    contains_name, id_of, wf_names, Symbol, SymbolTable, Term, ERROR_ID, FALSE_ID, NIL_ID, OK_ID,
    STRUCT_ID, TRUE_ID,
};
use vstd::prelude::*;

verus! {

/// The conversion failures. Both are recoverable by the caller.
#[derive(Clone, Copy, PartialEq, Eq, Structural, Debug)]
pub enum Error {
    /// The input could not be interpreted as a representable symbol or
    /// text value: either text that names no existing symbol, or a term
    /// that is not a symbol at all.
    InvalidStringable,
    /// A term was a symbol, but its name could not be recovered as text:
    /// a runtime-level inconsistency, distinct from a shape mismatch.
    InvalidAtom,
}

/// The reserved spelling of the success tag.
pub fn ok_text() -> (r: String)
    ensures
        r@ == "Ok"@,
{
    "Ok".to_owned()
}

/// The reserved spelling of the failure tag.
pub fn err_text() -> (r: String)
    ensures
        r@ == "Err"@,
{
    "Err".to_owned()
}

impl SymbolTable {
    /// The `nil` sentinel, as a term of this execution context.
    pub fn nil(&self) -> (t: Term)
        ensures
            t == Term::Symbol(Symbol { id: NIL_ID }),
    {
        Term::Symbol(Symbol { id: NIL_ID })
    }

    /// The `ok` sentinel (the success tag), as a term.
    pub fn ok(&self) -> (t: Term)
        ensures
            t == Term::Symbol(Symbol { id: OK_ID }),
    {
        Term::Symbol(Symbol { id: OK_ID })
    }

    /// The `error` sentinel (the failure tag), as a term.
    pub fn error(&self) -> (t: Term)
        ensures
            t == Term::Symbol(Symbol { id: ERROR_ID }),
    {
        Term::Symbol(Symbol { id: ERROR_ID })
    }

    /// The `true` sentinel, as a term.
    pub fn true_(&self) -> (t: Term)
        ensures
            t == Term::Symbol(Symbol { id: TRUE_ID }),
    {
        Term::Symbol(Symbol { id: TRUE_ID })
    }

    /// The `false` sentinel, as a term.
    pub fn false_(&self) -> (t: Term)
        ensures
            t == Term::Symbol(Symbol { id: FALSE_ID }),
    {
        Term::Symbol(Symbol { id: FALSE_ID })
    }

    /// The struct-tag sentinel, named `__struct__`, as a term.
    pub fn struct_tag(&self) -> (t: Term)
        ensures
            t == Term::Symbol(Symbol { id: STRUCT_ID }),
    {
        Term::Symbol(Symbol { id: STRUCT_ID })
    }
}

/// How the bridge routes a piece of text: the two reserved spellings map
/// to the result-tag sentinels before any lookup; everything else takes
/// the generic lookup path.
#[derive(Clone, Copy, PartialEq, Eq, Structural, Debug)]
pub enum TextClass {
    ReservedOk,
    ReservedErr,
    Plain,
}

/// The routing of a piece of text; see [`TextClass`].
pub open spec fn classify(s: Seq<char>) -> TextClass {
    if s == "Ok"@ {
        TextClass::ReservedOk
    } else if s == "Err"@ {
        TextClass::ReservedErr
    } else {
        TextClass::Plain
    }
}

/// Routes a piece of text, deciding whether a reserved spelling wins over
/// the generic symbol lookup.
pub fn classify_text(s: &str) -> (c: TextClass)
    ensures
        c == classify(s@),
{
    let owned = s.to_owned();
    if owned == ok_text() {
        TextClass::ReservedOk
    } else if owned == err_text() {
        TextClass::ReservedErr
    } else {
        TextClass::Plain
    }
}

/// What [`str_to_term`] returns on a table with the given entry names and
/// the given text: the `ok` or `error` sentinel for the two reserved
/// spellings, the existing symbol of that name otherwise, and
/// `InvalidStringable` when there is none — a new symbol is never created.
pub open spec fn encode_result(names: Seq<Seq<char>>, s: Seq<char>) -> Result<Term, Error> {
    match classify(s) {
        TextClass::ReservedOk => Ok(Term::Symbol(Symbol { id: OK_ID })),
        TextClass::ReservedErr => Ok(Term::Symbol(Symbol { id: ERROR_ID })),
        TextClass::Plain => if contains_name(names, s) {
            Ok(Term::Symbol(Symbol { id: id_of(names, s) as usize }))
        } else {
            Err(Error::InvalidStringable)
        },
    }
}

/// What [`term_to_string`] returns on a table with the given entry names
/// and the given term: the reserved spelling for a result-tag sentinel,
/// the interned name for any other symbol, `InvalidAtom` for a symbol
/// handle that denotes no entry, and `InvalidStringable` for a term that
/// is not a symbol at all.
pub open spec fn decode_result(names: Seq<Seq<char>>, t: Term) -> Result<Seq<char>, Error> {
    match t {
        Term::Symbol(sym) => if sym.id == OK_ID {
            Ok("Ok"@)
        } else if sym.id == ERROR_ID {
            Ok("Err"@)
        } else if sym.id < names.len() {
            Ok(names[sym.id as int])
        } else {
            Err(Error::InvalidAtom)
        },
        _ => Err(Error::InvalidStringable),
    }
}

/// Converts text to the best-matching term: a sentinel for the two
/// reserved spellings, an existing symbol otherwise. The table is taken
/// by shared reference and is never changed — in particular, no symbol is
/// created for unrecognized text.
pub fn str_to_term(table: &SymbolTable, string: &str) -> (r: Result<Term, Error>)
    requires
        table.wf(),
    ensures
        r == encode_result(table@, string@),
{
    match classify_text(string) {
        TextClass::ReservedOk => Ok(table.ok()),
        TextClass::ReservedErr => Ok(table.error()),
        TextClass::Plain => match table.find_symbol(string) {
            Some(sym) => Ok(Term::Symbol(sym)),
            None => Err(Error::InvalidStringable),
        },
    }
}

/// Recovers the text a term denotes: the reserved spelling for a
/// result-tag sentinel, the interned name for any other symbol.
pub fn term_to_string(table: &SymbolTable, term: &Term) -> (r: Result<String, Error>)
    requires
        table.wf(),
    ensures
        r is Ok <==> decode_result(table@, *term) is Ok,
        r matches Ok(out) ==> out@ == decode_result(table@, *term)->Ok_0,
        r matches Err(e) ==> e == decode_result(table@, *term)->Err_0,
{
    match term {
        Term::Symbol(sym) => {
            if sym.id == OK_ID {
                Ok(ok_text())
            } else if sym.id == ERROR_ID {
                Ok(err_text())
            } else {
                match table.name_of(*sym) {
                    Some(name) => Ok(name),
                    None => Err(Error::InvalidAtom),
                }
            }
        },
        _ => Err(Error::InvalidStringable),
    }
}

/// Law: encoding text that names an existing symbol and is neither
/// reserved spelling succeeds, and decoding the resulting term returns
/// the original text. The names of the `ok` and `error` sentinels
/// themselves are excluded: a symbol spelled `ok` or `error` decodes to
/// the reserved spelling of its tag, not to its interned name.
pub proof fn lemma_known_name_round_trip(names: Seq<Seq<char>>, s: Seq<char>)
    requires
        wf_names(names),
        contains_name(names, s),
        s != "Ok"@,
        s != "Err"@,
        s != "ok"@,
        s != "error"@,
    ensures
        encode_result(names, s) matches Ok(t) && decode_result(names, t) == Ok::<
            Seq<char>,
            Error,
        >(s),
{
    let i = id_of(names, s);
    assert(0 <= i < names.len() && names[i] == s);
    assert(i != OK_ID as int);
    assert(i != ERROR_ID as int);
}

/// Law: the reserved spelling `"Ok"` encodes to the `ok` sentinel, which
/// decodes back to `"Ok"`; symmetrically for `"Err"` and the `error`
/// sentinel. This holds of every table, known names notwithstanding: the
/// reserved mapping is checked before any lookup.
pub proof fn lemma_result_tag_round_trip(names: Seq<Seq<char>>)
    ensures
        encode_result(names, "Ok"@) == Ok::<Term, Error>(Term::Symbol(Symbol { id: OK_ID })),
        encode_result(names, "Err"@) == Ok::<Term, Error>(Term::Symbol(Symbol { id: ERROR_ID })),
        decode_result(names, Term::Symbol(Symbol { id: OK_ID })) == Ok::<Seq<char>, Error>("Ok"@),
        decode_result(names, Term::Symbol(Symbol { id: ERROR_ID })) == Ok::<Seq<char>, Error>(
            "Err"@,
        ),
{
    reveal_strlit("Ok");
    reveal_strlit("Err");
    assert("Ok"@.len() == 2);
    assert("Err"@.len() == 3);
}

/// Law: text that is neither reserved spelling and names no existing
/// symbol is rejected with `InvalidStringable`. Nothing is interned on
/// this path — [`str_to_term`] takes the table by shared reference, so no
/// new symbol is observable afterward.
pub proof fn lemma_unknown_name_rejected(names: Seq<Seq<char>>, s: Seq<char>)
    requires
        s != "Ok"@,
        s != "Err"@,
        !contains_name(names, s),
    ensures
        encode_result(names, s) == Err::<Term, Error>(Error::InvalidStringable),
{
}

/// Law: a term that is not a symbol — text, numeric or composite —
/// decodes to `InvalidStringable`, whatever the table holds.
pub proof fn lemma_non_symbol_rejected(names: Seq<Seq<char>>, t: Term)
    requires
        t !is Symbol,
    ensures
        decode_result(names, t) == Err::<Seq<char>, Error>(Error::InvalidStringable),
{
}

/// Law: encoding is deterministic. Any two results of [`str_to_term`] on
/// the same table and the same text — each pinned to `encode_result` by
/// that function's contract — are equal terms: the same symbol identity.
pub proof fn lemma_encode_deterministic(
    names: Seq<Seq<char>>,
    s: Seq<char>,
    r1: Result<Term, Error>,
    r2: Result<Term, Error>,
)
    requires
        r1 == encode_result(names, s),
        r2 == encode_result(names, s),
    ensures
        r1 == r2,
{
}

} // verus!
