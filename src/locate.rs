use vstd::prelude::*;
use object::{Object, ObjectSymbol};
use crate::error::RttError;

verus! {

/// Where the RTT control block is looked for, in strict priority order.
#[derive(Clone, Debug)]
pub enum LocateStrategy {
    /// Use the address the caller gave; nothing else is consulted.
    Explicit(u64),
    /// Look up the control block symbol in the debug-info file at this path.
    Symbol(String),
    /// Scan target RAM for the control block signature.
    Scan,
}

/// One entry of an object file's symbol table: its name, when it is valid
/// UTF-8, and its address.
#[derive(Clone, Debug)]
pub struct SymbolRecord {
    pub name: Option<String>,
    pub address: u64,
}

/// The plain value of a symbol table entry.
pub open spec fn record_view(s: SymbolRecord) -> (Option<Seq<char>>, u64) {
    (
        match s.name {
            Some(n) => Some(n@),
            None => None,
        },
        s.address,
    )
}

/// The plain values of a symbol table, in table order.
pub open spec fn table_view(t: Seq<SymbolRecord>) -> Seq<(Option<Seq<char>>, u64)> {
    t.map_values(|s: SymbolRecord| record_view(s))
}

/// The symbol table that the object file parser reads from `data`, or `None`
/// when `data` is not an object file it can parse.
pub uninterp spec fn object_symbol_table(data: Seq<u8>) -> Option<Seq<(Option<Seq<char>>, u64)>>;

/// The name of the symbol that firmware gives the RTT control block.
pub open spec fn rtt_symbol_name() -> Seq<char> {
    seq!['_', 'S', 'E', 'G', 'G', 'E', 'R', '_', 'R', 'T', 'T']
}

/// The address of the first entry of `syms` named `name`, if any.
pub open spec fn first_named(syms: Seq<(Option<Seq<char>>, u64)>, name: Seq<char>) -> Option<u64>
    decreases syms.len(),
{
    if syms.len() == 0 {
        None
    } else if syms[0].0 == Some(name) {
        Some(syms[0].1)
    } else {
        first_named(syms.drop_first(), name)
    }
}

/// The strategy that applies: an explicit address wins over a debug-info
/// path, which wins over a memory scan.
pub open spec fn strategy_for(explicit_address: Option<u64>, debug_info_path: Option<String>) -> LocateStrategy {
    match explicit_address {
        Some(a) => LocateStrategy::Explicit(a),
        None => match debug_info_path {
            Some(p) => LocateStrategy::Symbol(p),
            None => LocateStrategy::Scan,
        },
    }
}

/// With an explicit address, that address is used whatever debug-info path
/// is also given: neither the symbol lookup nor a memory scan is chosen.
pub proof fn lemma_explicit_address_wins(address: u64, debug_info_path: Option<String>)
    ensures
        strategy_for(Some(address), debug_info_path) == LocateStrategy::Explicit(address),
{
}

/// With a debug-info path and no explicit address, the only strategy is one
/// lookup in that file, and the symbol looked up is `_SEGGER_RTT`.
pub proof fn lemma_path_alone_means_symbol_lookup(path: String)
    ensures
        strategy_for(None, Some(path)) == LocateStrategy::Symbol(path),
        rtt_symbol_name() == "_SEGGER_RTT"@,
{
    reveal_strlit("_SEGGER_RTT");
    assert(rtt_symbol_name() =~= "_SEGGER_RTT"@);
}

/// Decides how the control block is located.
pub fn choose_strategy(explicit_address: Option<u64>, debug_info_path: Option<String>) -> (r:
    LocateStrategy)
    ensures
        r == strategy_for(explicit_address, debug_info_path),
{
    if let Some(a) = explicit_address {
        LocateStrategy::Explicit(a)
    } else if let Some(p) = debug_info_path {
        LocateStrategy::Symbol(p)
    } else {
        LocateStrategy::Scan
    }
}

/// Relies on `object::File::parse` to parse `data`, and on
/// `Object::symbols`, `ObjectSymbol::name` and `ObjectSymbol::address` to
/// list its symbols in table order. The result depends on `data` alone.
#[verifier::external_body]
fn read_symbol_table(data: &[u8]) -> (r: Result<Vec<SymbolRecord>, object::Error>)
    ensures
        match r {
            Ok(v) => object_symbol_table(data@) == Some(table_view(v@)),
            Err(_) => object_symbol_table(data@) is None,
        },
{
    let file = object::File::parse(data)?;
    Ok(file.symbols().map(|s| SymbolRecord { name: s.name().ok().map(String::from), address: s.address() }).collect())
}

#[verifier::external_type_specification]
#[verifier::external_body]
pub struct ExObjectError(object::Error);

/// Relies on the `Display` impl of `object::Error` for a readable cause.
#[verifier::external_body]
fn object_error_text(e: &object::Error) -> String {
    e.to_string()
}

/// The address of the first symbol named `_SEGGER_RTT` in `symbols`.
pub fn rtt_symbol_address(symbols: &Vec<SymbolRecord>) -> (r: Option<u64>)
    ensures
        r == first_named(table_view(symbols@), rtt_symbol_name()),
{
    let target = String::from_str("_SEGGER_RTT");
    proof {
        reveal_strlit("_SEGGER_RTT");
        assert(target@ =~= rtt_symbol_name());
    }
    let ghost all = table_view(symbols@);
    assert(all.subrange(0, all.len() as int) =~= all);
    let mut i: usize = 0;
    while i < symbols.len()
        invariant
            target@ == rtt_symbol_name(),
            all == table_view(symbols@),
            i <= symbols@.len(),
            first_named(all, rtt_symbol_name()) == first_named(
                all.subrange(i as int, all.len() as int),
                rtt_symbol_name(),
            ),
        decreases symbols@.len() - i,
    {
        let ghost rest = all.subrange(i as int, all.len() as int);
        assert(rest[0] == record_view(symbols@[i as int]));
        assert(rest.drop_first() =~= all.subrange(i + 1, all.len() as int));
        if let Some(n) = &symbols[i].name {
            if *n == target {
                return Some(symbols[i].address);
            }
        }
        i = i + 1;
    }
    assert(all.subrange(i as int, all.len() as int) =~= Seq::empty());
    None
}

/// Finds the address of the RTT control block symbol in the object file held
/// by `data`.
///
/// The result is `Ok(None)` when the file parses but holds no such symbol,
/// and `Err` with the parser's cause when it does not parse.
pub fn find_rtt_symbol(data: &[u8]) -> (r: Result<Option<u64>, String>)
    ensures
        match object_symbol_table(data@) {
            None => r is Err,
            Some(t) => r == Ok::<Option<u64>, String>(first_named(t, rtt_symbol_name())),
        },
{
    match read_symbol_table(data) {
        Ok(symbols) => Ok(rtt_symbol_address(&symbols)),
        Err(e) => Err(object_error_text(&e)),
    }
}

/// Resolves the control block address from the contents of the debug-info
/// file at `path`, as read by the caller (`Err` carries the read failure).
pub fn symbol_address_from_file(path: &String, contents: Result<Vec<u8>, String>) -> (r: Result<
    u64,
    RttError,
>)
    ensures
        match contents {
            Err(c) => r == Err::<u64, RttError>(
                RttError::SymbolSourceError { path: *path, cause: c },
            ),
            Ok(d) => match object_symbol_table(d@) {
                None => r matches Err(RttError::SymbolSourceError { path: p, .. }) && p == *path,
                Some(t) => match first_named(t, rtt_symbol_name()) {
                    Some(a) => r == Ok::<u64, RttError>(a),
                    None => r == Err::<u64, RttError>(RttError::SymbolNotFound(*path)),
                },
            },
        },
{
    match contents {
        Err(c) => Err(RttError::SymbolSourceError { path: path.clone(), cause: c }),
        Ok(data) => match find_rtt_symbol(data.as_slice()) {
            Err(c) => Err(RttError::SymbolSourceError { path: path.clone(), cause: c }),
            Ok(None) => Err(RttError::SymbolNotFound(path.clone())),
            Ok(Some(a)) => Ok(a),
        },
    }
}

} // verus!
