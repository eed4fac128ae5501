use serde_rustler::atoms::{
    classify_text, err_text, ok_text, str_to_term, term_to_string, Error, TextClass,
};
use serde_rustler::table::{Symbol, SymbolTable, Term, ERROR_ID, OK_ID};

#[test]
fn reserved_ok_encodes_to_ok_sentinel() {
    let table = SymbolTable::new();
    let term = str_to_term(&table, "Ok").unwrap();
    assert_eq!(term, Term::Symbol(Symbol { id: OK_ID }));
    assert_eq!(term, table.ok());
}

#[test]
fn reserved_err_encodes_to_error_sentinel() {
    let table = SymbolTable::new();
    let term = str_to_term(&table, "Err").unwrap();
    assert_eq!(term, Term::Symbol(Symbol { id: ERROR_ID }));
    assert_eq!(term, table.error());
}

#[test]
fn ok_sentinel_decodes_to_reserved_spelling() {
    let table = SymbolTable::new();
    assert_eq!(term_to_string(&table, &table.ok()).unwrap(), "Ok");
    assert_eq!(term_to_string(&table, &table.error()).unwrap(), "Err");
}

#[test]
fn known_symbol_round_trips() {
    let mut table = SymbolTable::new();
    table.register(String::from("hello"));
    let term = str_to_term(&table, "hello").unwrap();
    assert!(matches!(term, Term::Symbol(_)));
    assert_eq!(term_to_string(&table, &term).unwrap(), "hello");
}

#[test]
fn unknown_text_is_rejected_without_interning() {
    let mut table = SymbolTable::new();
    table.register(String::from("hello"));
    let r = str_to_term(&table, "totally_unregistered_xyz");
    assert_eq!(r, Err(Error::InvalidStringable));
    assert!(table.find_symbol("totally_unregistered_xyz").is_none());
}

#[test]
fn non_symbol_terms_are_rejected() {
    let table = SymbolTable::new();
    assert_eq!(
        term_to_string(&table, &Term::Numeric(42)),
        Err(Error::InvalidStringable)
    );
    let composite = Term::Composite(vec![Term::Numeric(1), Term::Numeric(2)]);
    assert_eq!(
        term_to_string(&table, &composite),
        Err(Error::InvalidStringable)
    );
    assert_eq!(
        term_to_string(&table, &Term::Text(String::from("Ok"))),
        Err(Error::InvalidStringable)
    );
}

#[test]
fn encoding_a_known_name_twice_yields_equal_terms() {
    let mut table = SymbolTable::new();
    table.register(String::from("hello"));
    let first = str_to_term(&table, "hello").unwrap();
    let second = str_to_term(&table, "hello").unwrap();
    assert_eq!(first, second);
}

#[test]
fn dangling_symbol_handle_gives_invalid_atom() {
    let table = SymbolTable::new();
    let dangling = Term::Symbol(Symbol { id: 999 });
    assert_eq!(term_to_string(&table, &dangling), Err(Error::InvalidAtom));
}

#[test]
fn sentinel_accessors_decode_to_their_names() {
    let table = SymbolTable::new();
    assert_eq!(term_to_string(&table, &table.nil()).unwrap(), "nil");
    assert_eq!(term_to_string(&table, &table.true_()).unwrap(), "true");
    assert_eq!(term_to_string(&table, &table.false_()).unwrap(), "false");
    assert_eq!(
        term_to_string(&table, &table.struct_tag()).unwrap(),
        "__struct__"
    );
}

#[test]
fn sentinel_names_encode_to_the_sentinels() {
    // The interned names "ok" and "error" resolve to the sentinel symbols,
    // which then decode to the reserved spellings rather than round-trip.
    let table = SymbolTable::new();
    let term = str_to_term(&table, "ok").unwrap();
    assert_eq!(term, table.ok());
    assert_eq!(term_to_string(&table, &term).unwrap(), "Ok");
    let term = str_to_term(&table, "error").unwrap();
    assert_eq!(term, table.error());
    assert_eq!(term_to_string(&table, &term).unwrap(), "Err");
}

#[test]
fn reserved_mapping_wins_over_lookup() {
    // Even when a symbol spelled exactly "Ok" is interned, the reserved
    // mapping is checked first and returns the ok sentinel.
    let mut table = SymbolTable::new();
    let interned = table.register(String::from("Ok"));
    let term = str_to_term(&table, "Ok").unwrap();
    assert_eq!(term, table.ok());
    assert_ne!(term, Term::Symbol(interned));
}

#[test]
fn registering_a_name_twice_returns_the_same_symbol() {
    let mut table = SymbolTable::new();
    let first = table.register(String::from("hello"));
    let second = table.register(String::from("hello"));
    assert_eq!(first, second);
    assert_eq!(table.len(), 7);
}

#[test]
fn fresh_table_holds_exactly_the_sentinels() {
    let table = SymbolTable::new();
    assert_eq!(table.len(), 6);
    assert!(table.find_symbol("nil").is_some());
    assert!(table.find_symbol("ok").is_some());
    assert!(table.find_symbol("error").is_some());
    assert!(table.find_symbol("true").is_some());
    assert!(table.find_symbol("false").is_some());
    assert!(table.find_symbol("__struct__").is_some());
    assert!(table.find_symbol("hello").is_none());
}

#[test]
fn reserved_text_constants() {
    assert_eq!(ok_text(), "Ok");
    assert_eq!(err_text(), "Err");
}

#[test]
fn classification_of_text() {
    assert_eq!(classify_text("Ok"), TextClass::ReservedOk);
    assert_eq!(classify_text("Err"), TextClass::ReservedErr);
    assert_eq!(classify_text("ok"), TextClass::Plain);
    assert_eq!(classify_text("err"), TextClass::Plain);
    assert_eq!(classify_text(""), TextClass::Plain);
}
