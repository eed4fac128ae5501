//! The bridge's data model: symbols, terms, and a model of the foreign
//! runtime's interned-symbol table.

use vstd::prelude::*;

verus! {

/// Id of the `nil` sentinel symbol.
pub const NIL_ID: usize = 0;

/// Id of the `ok` sentinel symbol (the success tag).
pub const OK_ID: usize = 1;

/// Id of the `error` sentinel symbol (the failure tag).
pub const ERROR_ID: usize = 2;

/// Id of the `true` sentinel symbol.
pub const TRUE_ID: usize = 3;

/// Id of the `false` sentinel symbol.
pub const FALSE_ID: usize = 4;

/// Id of the struct-tag sentinel symbol, named `__struct__`.
pub const STRUCT_ID: usize = 5;

/// How many sentinel symbols a fresh table holds.
pub const SENTINEL_COUNT: usize = 6;

/// A handle to one interned entry of the symbol table. Two symbols denote
/// the same entry exactly when their ids are equal.
#[derive(Clone, Copy, PartialEq, Eq, Structural, Debug)]
pub struct Symbol {
    pub id: usize,
}

/// A foreign-runtime value as this bridge sees it: a tagged union of a
/// symbol, plain text, a number, or a composite of further terms. The
/// bridge only inspects and produces the symbol variant; the others exist
/// so that a caller can hand any term shape to the decoder.
#[derive(PartialEq, Eq, Debug)]
pub enum Term {
    Symbol(Symbol),
    Text(String),
    Numeric(i64),
    Composite(Vec<Term>),
}

/// Whether some entry of the table is named `s`.
pub open spec fn contains_name(names: Seq<Seq<char>>, s: Seq<char>) -> bool {
    exists|i: int| 0 <= i < names.len() && names[i] == s
}

/// The id of the entry named `s`; meaningful when `contains_name` holds.
pub open spec fn id_of(names: Seq<Seq<char>>, s: Seq<char>) -> int {
    choose|i: int| 0 <= i < names.len() && names[i] == s
}

/// Well-formedness of a symbol table: the six sentinel symbols sit at
/// their fixed ids under their fixed names, and entry names are unique,
/// as interning demands.
pub open spec fn wf_names(names: Seq<Seq<char>>) -> bool {
    &&& names.len() >= SENTINEL_COUNT
    &&& names.len() <= usize::MAX
    &&& names[NIL_ID as int] == "nil"@
    &&& names[OK_ID as int] == "ok"@
    &&& names[ERROR_ID as int] == "error"@
    &&& names[TRUE_ID as int] == "true"@
    &&& names[FALSE_ID as int] == "false"@
    &&& names[STRUCT_ID as int] == "__struct__"@
    &&& forall|i: int, j: int|
        0 <= i < names.len() && 0 <= j < names.len() && i != j ==> names[i] != names[j]
}

/// The bridge's model of the foreign runtime's symbol table: the name of
/// the entry with id `i` sits at index `i`. The table is append-only and
/// owned by the runtime; the bridge itself only reads it.
pub struct SymbolTable {
    names: Vec<String>,
}

impl View for SymbolTable {
    type V = Seq<Seq<char>>;

    closed spec fn view(&self) -> Seq<Seq<char>> {
        Seq::new(self.names@.len() as nat, |i: int| self.names@[i]@)
    }
}

impl SymbolTable {
    /// Well-formedness of this table; see `wf_names`.
    pub open spec fn wf(&self) -> bool {
        wf_names(self@)
    }

    /// A table as the runtime leaves it at process initialization: the
    /// six sentinel symbols are interned and nothing else is.
    pub fn new() -> (t: SymbolTable)
        ensures
            t.wf(),
            t@.len() == SENTINEL_COUNT,
    {
        let mut names: Vec<String> = Vec::new();
        names.push("nil".to_owned());
        names.push("ok".to_owned());
        names.push("error".to_owned());
        names.push("true".to_owned());
        names.push("false".to_owned());
        names.push("__struct__".to_owned());
        let t = SymbolTable { names };
        proof {
            reveal_strlit("nil");
            reveal_strlit("ok");
            reveal_strlit("error");
            reveal_strlit("true");
            reveal_strlit("false");
            reveal_strlit("__struct__");
            assert(t@[NIL_ID as int] == "nil"@);
            assert(t@[OK_ID as int] == "ok"@);
            assert(t@[ERROR_ID as int] == "error"@);
            assert(t@[TRUE_ID as int] == "true"@);
            assert(t@[FALSE_ID as int] == "false"@);
            assert(t@[STRUCT_ID as int] == "__struct__"@);
            assert(t@.len() == 6);
            assert("nil"@.len() == 3);
            assert("ok"@.len() == 2);
            assert("error"@.len() == 5);
            assert("true"@.len() == 4);
            assert("false"@.len() == 5);
            assert("__struct__"@.len() == 10);
            assert("error"@ != "false"@) by {
                assert("error"@[0] == 'e');
                assert("false"@[0] == 'f');
            }
            assert forall|i: int, j: int|
                0 <= i < t@.len() && 0 <= j < t@.len() && i != j implies t@[i] != t@[j] by {
                assert(t@.len() == 6);
            }
        }
        t
    }

    /// How many entries the table holds.
    pub fn len(&self) -> (n: usize)
        ensures
            n == self@.len(),
    {
        self.names.len()
    }

    /// Looks up an existing symbol by name. This never creates an entry:
    /// the probe is the non-creating kind, as table safety demands.
    pub fn find_symbol(&self, name: &str) -> (r: Option<Symbol>)
        requires
            self.wf(),
        ensures
            contains_name(self@, name@) ==> (r matches Some(sym)
                && sym.id == id_of(self@, name@)
                && sym.id < self@.len()
                && self@[sym.id as int] == name@),
            !contains_name(self@, name@) ==> r is None,
    {
        let owned = name.to_owned();
        let n = self.names.len();
        let mut k: usize = 0;
        while k < n
            invariant
                n == self@.len(),
                k <= n,
                owned@ == name@,
                self.wf(),
                forall|i: int| 0 <= i < k ==> self@[i] != name@,
            decreases n - k,
        {
            if self.names[k] == owned {
                proof {
                    assert(self@[k as int] == name@);
                    assert(contains_name(self@, name@));
                    let i = id_of(self@, name@);
                    assert(0 <= i < self@.len() && self@[i] == name@);
                    assert(i == k as int);
                }
                return Some(Symbol { id: k });
            }
            k += 1;
        }
        None
    }

    /// Interns `name`, as the runtime itself does when some collaborator
    /// creates a symbol: the existing entry is returned when the name is
    /// already present, and a fresh entry is appended otherwise. The
    /// converter never calls this; it exists so that the surrounding
    /// program can model symbols the runtime already holds.
    pub fn register(&mut self, name: String) -> (sym: Symbol)
        requires
            old(self).wf(),
        ensures
            final(self).wf(),
            sym.id < final(self)@.len(),
            final(self)@[sym.id as int] == name@,
            forall|i: int| 0 <= i < old(self)@.len() ==> final(self)@[i] == old(self)@[i],
            contains_name(old(self)@, name@) ==> (final(self)@ == old(self)@
                && sym.id == id_of(old(self)@, name@)),
            !contains_name(old(self)@, name@) ==> (final(self)@ == old(self)@.push(name@)
                && sym.id == old(self)@.len()),
    {
        match self.find_symbol(name.as_str()) {
            Some(sym) => sym,
            None => {
                let id = self.names.len();
                self.names.push(name);
                proof {
                    broadcast use vstd::std_specs::vec::axiom_spec_len;

                    assert(vstd::std_specs::vec::spec_vec_len(&self.names) == self.names@.len());
                    assert(self.names@.len() <= usize::MAX);
                    assert(self@ =~= old(self)@.push(name@));
                    assert forall|i: int, j: int|
                        0 <= i < self@.len() && 0 <= j < self@.len() && i != j
                        implies self@[i] != self@[j] by {
                        if i == old(self)@.len() {
                            assert(self@[i] == name@);
                            assert(self@[j] == old(self)@[j]);
                        } else if j == old(self)@.len() {
                            assert(self@[j] == name@);
                            assert(self@[i] == old(self)@[i]);
                        }
                    }
                }
                Symbol { id }
            },
        }
    }

    /// The interned name of `sym`, as the runtime materializes it when
    /// asked to print a symbol; `None` when the handle denotes no entry.
    pub fn name_of(&self, sym: Symbol) -> (r: Option<String>)
        ensures
            sym.id < self@.len() ==> (r matches Some(s) && s@ == self@[sym.id as int]),
            sym.id >= self@.len() ==> r is None,
    {
        if sym.id < self.names.len() {
            Some(self.names[sym.id].clone())
        } else {
            None
        }
    }
}

} // verus!
