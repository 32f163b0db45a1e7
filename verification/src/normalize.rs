//! Normalizing a configuration: symbols to upper case, addresses to lower
//! case, both without surrounding whitespace.

use vstd::prelude::*;
use vstd::string::*;
use crate::config::{Config, Network, RouteDex, Token};
use crate::text::{lowercase_text, to_lowercase, to_uppercase, trim, trimmed_text, uppercase_text};
use crate::utils::{first_from, first_where};

verus! {

/// The normal form of a symbol: trimmed, then upper case.
pub open spec fn normal_symbol(s: Seq<char>) -> Seq<char> {
    uppercase_text(trimmed_text(s))
}

/// The normal form of an address: trimmed, then lower case.
pub open spec fn normal_address(s: Seq<char>) -> Seq<char> {
    lowercase_text(trimmed_text(s))
}

/// The normal form of a symbol.
pub fn normalize_symbol(s: &str) -> (r: String)
    ensures
        r@ == normal_symbol(s@),
{
    to_uppercase(trim(s))
}

/// The normal form of an address.
pub fn normalize_address(s: &str) -> (r: String)
    ensures
        r@ == normal_address(s@),
{
    to_lowercase(trim(s))
}

/// The normal form of a pair of symbols.
pub fn normalize_pair(p: &[String; 2]) -> (r: [String; 2])
    ensures
        r[0]@ == normal_symbol(p[0]@),
        r[1]@ == normal_symbol(p[1]@),
{
    [normalize_symbol(p[0].as_str()), normalize_symbol(p[1].as_str())]
}


/// The normal form of a triangle of symbols.
pub fn normalize_triangle(t: &[String; 3]) -> (r: [String; 3])
    ensures
        r[0]@ == normal_symbol(t[0]@),
        r[1]@ == normal_symbol(t[1]@),
        r[2]@ == normal_symbol(t[2]@),
{
    [
        normalize_symbol(t[0].as_str()),
        normalize_symbol(t[1].as_str()),
        normalize_symbol(t[2].as_str()),
    ]
}

/// A listed token as plain values: symbol, address, decimals, optional.
pub type TokenRow = (Seq<char>, Seq<char>, u8, bool);

/// A listed token as plain values.
pub open spec fn token_row(e: (String, Token)) -> TokenRow {
    (e.0@, e.1.address@, e.1.decimals, e.1.optional)
}

/// A token list as plain values.
pub open spec fn token_rows(tokens: Seq<(String, Token)>) -> Seq<TokenRow> {
    tokens.map_values(|e: (String, Token)| token_row(e))
}

/// The normal form of a listed token: its symbol as a normal symbol, its
/// address as a normal address — normalized twice over, once with the
/// addresses and once more with the keys.
pub open spec fn normal_row(r: TokenRow) -> TokenRow {
    (normal_symbol(r.0), normal_address(normal_address(r.1)), r.2, r.3)
}

/// A token list with one more token: it takes the place of the token that
/// has its symbol, or it is added at the end.
pub open spec fn put_row(rows: Seq<TokenRow>, row: TokenRow) -> Seq<TokenRow> {
    match first_where(rows, |r: TokenRow| r.0 == row.0) {
        Some(i) => rows.update(i, row),
        None => rows.push(row),
    }
}

/// The normal form of the first `n` tokens of a list, each symbol once.
pub open spec fn normalized_rows(tokens: Seq<(String, Token)>, n: int) -> Seq<TokenRow>
    decreases n,
{
    if n <= 0 {
        Seq::empty()
    } else {
        put_row(normalized_rows(tokens, n - 1), normal_row(token_row(tokens[n - 1])))
    }
}

/// Whether one list of symbols is the normal form of another.
pub open spec fn symbols_normalized(old: Seq<String>, new: Seq<String>) -> bool {
    new.len() == old.len() && forall|i: int|
        0 <= i < old.len() ==> (#[trigger] new[i])@ == normal_symbol(old[i]@)
}

/// Whether one list of pairs is the normal form of another.
pub open spec fn pairs_normalized(old: Seq<[String; 2]>, new: Seq<[String; 2]>) -> bool {
    new.len() == old.len() && forall|i: int|
        0 <= i < old.len() ==> (#[trigger] new[i])[0]@ == normal_symbol(old[i][0]@) && new[i][1]@
            == normal_symbol(old[i][1]@)
}

/// Whether one list of triangles is the normal form of another.
pub open spec fn triangles_normalized(old: Seq<[String; 3]>, new: Seq<[String; 3]>) -> bool {
    new.len() == old.len() && forall|i: int|
        0 <= i < old.len() ==> (#[trigger] new[i])[0]@ == normal_symbol(old[i][0]@) && new[i][1]@
            == normal_symbol(old[i][1]@) && new[i][2]@ == normal_symbol(old[i][2]@)
}

/// Whether one list of routes is the normal form of another: the same
/// exchanges, the pair in normal form.
pub open spec fn routes_normalized(old: Seq<RouteDex>, new: Seq<RouteDex>) -> bool {
    new.len() == old.len() && forall|i: int|
        0 <= i < old.len() ==> (#[trigger] new[i]).dexes == old[i].dexes && new[i].pair[0]@
            == normal_symbol(old[i].pair[0]@) && new[i].pair[1]@ == normal_symbol(old[i].pair[1]@)
}

/// Whether one chain is the normal form of another: token symbols, and
/// the symbols of pairs, triangles and routes, in upper case; token
/// addresses in lower case; everything else as it was.
pub open spec fn network_normalized(old: Network, new: Network) -> bool {
    &&& new.id == old.id
    &&& new.name == old.name
    &&& new.chain_id == old.chain_id
    &&& new.native_symbol == old.native_symbol
    &&& new.rpc == old.rpc
    &&& new.explorer == old.explorer
    &&& new.dexes == old.dexes
    &&& new.strategy_overrides == old.strategy_overrides
    &&& token_rows(new.tokens@) == normalized_rows(old.tokens@, old.tokens@.len() as int)
    &&& pairs_normalized(old.pairs@, new.pairs@)
    &&& triangles_normalized(old.triangles@, new.triangles@)
    &&& match old.routes_cross_dex {
        Some(routes) => new.routes_cross_dex is Some && routes_normalized(
            routes@,
            new.routes_cross_dex->0@,
        ),
        None => new.routes_cross_dex is None,
    }
}

/// Whether one configuration is the normal form of another.
pub open spec fn config_normalized(old: Config, new: Config) -> bool {
    &&& new.version == old.version
    &&& new.created_at == old.created_at
    &&& new.notes == old.notes
    &&& new.strategies == old.strategies
    &&& new.routing == old.routing
    &&& new.safety == old.safety
    &&& new.telemetry == old.telemetry
    &&& new.global.quote == old.global.quote
    &&& new.global.mev == old.global.mev
    &&& new.global.flashloan == old.global.flashloan
    &&& new.global.execution == old.global.execution
    &&& new.global.risk.min_liquidity_usd == old.global.risk.min_liquidity_usd
    &&& new.global.risk.max_price_impact_bps == old.global.risk.max_price_impact_bps
    &&& new.global.risk.blacklist_tokens == old.global.risk.blacklist_tokens
    &&& new.global.risk.fee_on_transfer_block == old.global.risk.fee_on_transfer_block
    &&& new.global.risk.rebase_token_block == old.global.risk.rebase_token_block
    &&& symbols_normalized(old.global.risk.stables@, new.global.risk.stables@)
    &&& new.global.risk.permit2@ == if old.global.risk.permit2@.len() == 0 {
        old.global.risk.permit2@
    } else {
        normal_address(old.global.risk.permit2@)
    }
    &&& new.networks@.len() == old.networks@.len()
    &&& forall|i: int|
        0 <= i < old.networks@.len() ==> network_normalized(old.networks@[i], #[trigger] new.networks@[i])
}

/// The items of a list in reverse order.
fn reversed<T>(list: Vec<T>) -> (r: Vec<T>)
    ensures
        r@ == list@.reverse(),
{
    let mut rest = list;
    let mut r: Vec<T> = Vec::new();
    while rest.len() > 0
        invariant
            rest@.len() <= list@.len(),
            rest@ == list@.subrange(0, rest@.len() as int),
            r@.len() == list@.len() - rest@.len(),
            forall|k: int| 0 <= k < r@.len() ==> r@[k] == list@[list@.len() - 1 - k],
        decreases rest@.len(),
    {
        match rest.pop() {
            Some(item) => {
                r.push(item);
            },
            None => {},
        }
    }
    assert(r@ =~= list@.reverse());
    r
}

fn normalize_symbols(list: &Vec<String>) -> (r: Vec<String>)
    ensures
        symbols_normalized(list@, r@),
{
    let mut r: Vec<String> = Vec::new();
    let mut i: usize = 0;
    while i < list.len()
        invariant
            i <= list@.len(),
            r@.len() == i,
            forall|k: int| 0 <= k < i ==> (#[trigger] r@[k])@ == normal_symbol(list@[k]@),
        decreases list@.len() - i,
    {
        r.push(normalize_symbol(list[i].as_str()));
        i += 1;
    }
    r
}

fn normalize_pairs(list: &Vec<[String; 2]>) -> (r: Vec<[String; 2]>)
    ensures
        pairs_normalized(list@, r@),
{
    let mut r: Vec<[String; 2]> = Vec::new();
    let mut i: usize = 0;
    while i < list.len()
        invariant
            i <= list@.len(),
            r@.len() == i,
            forall|k: int|
                0 <= k < i ==> (#[trigger] r@[k])[0]@ == normal_symbol(list@[k][0]@) && r@[k][1]@
                    == normal_symbol(list@[k][1]@),
        decreases list@.len() - i,
    {
        r.push(normalize_pair(&list[i]));
        i += 1;
    }
    r
}

fn normalize_triangles(list: &Vec<[String; 3]>) -> (r: Vec<[String; 3]>)
    ensures
        triangles_normalized(list@, r@),
{
    let mut r: Vec<[String; 3]> = Vec::new();
    let mut i: usize = 0;
    while i < list.len()
        invariant
            i <= list@.len(),
            r@.len() == i,
            forall|k: int|
                0 <= k < i ==> (#[trigger] r@[k])[0]@ == normal_symbol(list@[k][0]@) && r@[k][1]@
                    == normal_symbol(list@[k][1]@) && r@[k][2]@ == normal_symbol(list@[k][2]@),
        decreases list@.len() - i,
    {
        r.push(normalize_triangle(&list[i]));
        i += 1;
    }
    r
}

fn normalize_routes(list: Vec<RouteDex>) -> (r: Vec<RouteDex>)
    ensures
        routes_normalized(list@, r@),
{
    let ghost total = list@.len();
    let mut rest = list;
    let mut back: Vec<RouteDex> = Vec::new();
    while rest.len() > 0
        invariant
            total == list@.len(),
            rest@.len() <= total,
            rest@ == list@.subrange(0, rest@.len() as int),
            back@.len() == total - rest@.len(),
            forall|k: int|
                0 <= k < back@.len() ==> (#[trigger] back@[k]).dexes == list@[total - 1 - k].dexes
                    && back@[k].pair[0]@ == normal_symbol(list@[total - 1 - k].pair[0]@)
                    && back@[k].pair[1]@ == normal_symbol(list@[total - 1 - k].pair[1]@),
        decreases rest@.len(),
    {
        match rest.pop() {
            Some(route) => {
                let pair = normalize_pair(&route.pair);
                back.push(RouteDex { pair, dexes: route.dexes });
            },
            None => {},
        }
    }
    let r = reversed(back);
    assert(routes_normalized(list@, r@)) by {
        assert forall|i: int| 0 <= i < total implies (#[trigger] r@[i]).dexes == list@[i].dexes
            && r@[i].pair[0]@ == normal_symbol(list@[i].pair[0]@) && r@[i].pair[1]@
            == normal_symbol(list@[i].pair[1]@) by {
            assert(r@[i] == back@[total - 1 - i]);
        }
    }
    r
}

fn normalize_tokens(tokens: &Vec<(String, Token)>) -> (r: Vec<(String, Token)>)
    ensures
        token_rows(r@) == normalized_rows(tokens@, tokens@.len() as int),
{
    let mut r: Vec<(String, Token)> = Vec::new();
    assert(token_rows(r@) =~= Seq::empty());
    let mut i: usize = 0;
    while i < tokens.len()
        invariant
            i <= tokens@.len(),
            token_rows(r@) == normalized_rows(tokens@, i as int),
        decreases tokens@.len() - i,
    {
        let key = normalize_symbol(tokens[i].0.as_str());
        let once = normalize_address(tokens[i].1.address.as_str());
        let address = normalize_address(once.as_str());
        let entry = (
            key,
            Token { address, decimals: tokens[i].1.decimals, optional: tokens[i].1.optional },
        );
        let ghost row = normal_row(token_row(tokens@[i as int]));
        assert(token_row(entry) == row);
        let ghost rows = token_rows(r@);
        let ghost pred = |x: TokenRow| x.0 == row.0;
        let mut j: usize = 0;
        let mut found: Option<usize> = None;
        while j < r.len()
            invariant_except_break
                found is None,
                first_from(rows, pred, 0) == first_from(rows, pred, j as int),
            invariant
                j <= r@.len(),
                rows == token_rows(r@),
                pred == (|x: TokenRow| x.0 == row.0),
                entry.0@ == row.0,
            ensures
                match found {
                    Some(k) => first_from(rows, pred, 0) == Some(k as int) && k < r@.len(),
                    None => first_from(rows, pred, 0) is None,
                },
            decreases r@.len() - j,
        {
            if r[j].0 == entry.0 {
                assert(pred(rows[j as int]));
                found = Some(j);
                break ;
            }
            assert(!pred(rows[j as int]));
            j += 1;
        }
        match found {
            Some(k) => {
                r.set(k, entry);
                assert(token_rows(r@) =~= rows.update(k as int, row));
            },
            None => {
                r.push(entry);
                assert(token_rows(r@) =~= rows.push(row));
            },
        }
        i += 1;
    }
    r
}

/// The normal form of a chain.
pub fn normalize_network(net: Network) -> (r: Network)
    ensures
        network_normalized(net, r),
{
    let tokens = normalize_tokens(&net.tokens);
    let pairs = normalize_pairs(&net.pairs);
    let triangles = normalize_triangles(&net.triangles);
    let Network {
        id,
        name,
        chain_id,
        native_symbol,
        rpc,
        explorer,
        tokens: _,
        dexes,
        pairs: _,
        triangles: _,
        routes_cross_dex,
        strategy_overrides,
    } = net;
    let routes_cross_dex = match routes_cross_dex {
        Some(routes) => Some(normalize_routes(routes)),
        None => None,
    };
    Network {
        id,
        name,
        chain_id,
        native_symbol,
        rpc,
        explorer,
        tokens,
        dexes,
        pairs,
        triangles,
        routes_cross_dex,
        strategy_overrides,
    }
}

fn normalize_networks(list: Vec<Network>) -> (r: Vec<Network>)
    ensures
        r@.len() == list@.len(),
        forall|i: int| 0 <= i < list@.len() ==> network_normalized(list@[i], #[trigger] r@[i]),
{
    let ghost total = list@.len();
    let mut rest = list;
    let mut back: Vec<Network> = Vec::new();
    while rest.len() > 0
        invariant
            total == list@.len(),
            rest@.len() <= total,
            rest@ == list@.subrange(0, rest@.len() as int),
            back@.len() == total - rest@.len(),
            forall|k: int|
                0 <= k < back@.len() ==> network_normalized(list@[total - 1 - k], #[trigger] back@[k]),
        decreases rest@.len(),
    {
        match rest.pop() {
            Some(net) => {
                back.push(normalize_network(net));
            },
            None => {},
        }
    }
    let r = reversed(back);
    assert forall|i: int| 0 <= i < total implies network_normalized(list@[i], #[trigger] r@[i]) by {
        assert(r@[i] == back@[total - 1 - i]);
    }
    r
}

impl Config {
    /// The normal form of a configuration: token symbols and the symbols
    /// in pairs, triangles, routes and the stable list in upper case, token
    /// addresses and the shared-allowance address in lower case, all without
    /// surrounding whitespace.  Tokens whose symbols fall together are one
    /// token, the later one.
    pub fn normalize(self) -> (r: Config)
        ensures
            config_normalized(self, r),
    {
        let Config {
            version,
            created_at,
            notes,
            global,
            networks,
            strategies,
            routing,
            safety,
            telemetry,
        } = self;
        let crate::config::Global { quote, risk, mev, flashloan, execution } = global;
        let stables = normalize_symbols(&risk.stables);
        let permit2 = if risk.permit2.as_str().is_empty() {
            risk.permit2
        } else {
            normalize_address(risk.permit2.as_str())
        };
        let risk = crate::config::Risk {
            min_liquidity_usd: risk.min_liquidity_usd,
            max_price_impact_bps: risk.max_price_impact_bps,
            stables,
            blacklist_tokens: risk.blacklist_tokens,
            fee_on_transfer_block: risk.fee_on_transfer_block,
            rebase_token_block: risk.rebase_token_block,
            permit2,
        };
        Config {
            version,
            created_at,
            notes,
            global: crate::config::Global { quote, risk, mev, flashloan, execution },
            networks: normalize_networks(networks),
            strategies,
            routing,
            safety,
            telemetry,
        }
    }
}


/// A piece of an endpoint URL: one literal byte, or a reference to an
/// environment variable by name.  Positions are byte positions in the URL.
#[derive(Clone, Copy, Debug, PartialEq, Eq, Structural)]
pub enum RpcPart {
    /// The byte at position `at`.
    Literal { at: usize },
    /// The variable whose name is the bytes from `from` up to `to`.
    Variable { from: usize, to: usize },
}

/// Whether a byte can stand in a bare variable name: a letter, a digit or
/// an underscore.
pub open spec fn is_name_byte(b: u8) -> bool {
    (0x30 <= b <= 0x39) || (0x41 <= b <= 0x5a) || (0x61 <= b <= 0x7a) || b == 0x5f
}

/// Where the run of name bytes that starts at `i` ends.
pub open spec fn name_end(b: Seq<u8>, i: int) -> int
    decreases b.len() - i,
{
    if 0 <= i < b.len() && is_name_byte(b[i]) {
        name_end(b, i + 1)
    } else {
        i
    }
}

/// The first closing brace at or after `i`.
pub open spec fn closing_brace(b: Seq<u8>, i: int) -> Option<int> {
    first_from(b, |x: u8| x == 0x7du8, i)
}

/// A run of name bytes ends no earlier than it starts, and within the text.
pub proof fn lemma_name_end_bounds(b: Seq<u8>, i: int)
    requires
        0 <= i <= b.len(),
    ensures
        i <= name_end(b, i) <= b.len(),
    decreases b.len() - i,
{
    if i < b.len() && is_name_byte(b[i]) {
        lemma_name_end_bounds(b, i + 1);
    }
}

/// The pieces of an endpoint URL from position `i` on.  A dollar sign
/// followed by an opening brace refers to the variable named up to the next
/// closing brace, and stands for itself where no brace closes; any other
/// dollar sign refers to the variable named by the letters, digits and
/// underscores that follow it, be they none; every other byte stands for
/// itself.
pub open spec fn rpc_parts_from(b: Seq<u8>, i: int) -> Seq<RpcPart>
    decreases b.len() - i,
{
    if i < 0 || i >= b.len() {
        Seq::empty()
    } else if b[i] != 0x24 {
        seq![RpcPart::Literal { at: i as usize }] + rpc_parts_from(b, i + 1)
    } else if i + 1 < b.len() && b[i + 1] == 0x7b {
        match closing_brace(b, i + 2) {
            Some(end) => {
                proof {
                    crate::utils::lemma_first_from(b, |x: u8| x == 0x7du8, i + 2);
                }
                seq![RpcPart::Variable { from: (i + 2) as usize, to: end as usize }]
                    + rpc_parts_from(b, end + 1)
            },
            None => seq![RpcPart::Literal { at: i as usize }] + rpc_parts_from(b, i + 1),
        }
    } else {
        proof {
            lemma_name_end_bounds(b, i + 1);
        }
        seq![RpcPart::Variable { from: (i + 1) as usize, to: name_end(b, i + 1) as usize }]
            + rpc_parts_from(b, name_end(b, i + 1))
    }
}

/// The pieces of an endpoint URL.
pub open spec fn rpc_parts_spec(b: Seq<u8>) -> Seq<RpcPart> {
    rpc_parts_from(b, 0)
}

fn find_closing_brace(b: &[u8], from: usize) -> (r: Option<usize>)
    requires
        from <= b@.len(),
    ensures
        match r {
            Some(end) => closing_brace(b@, from as int) == Some(end as int) && from <= end
                < b@.len(),
            None => closing_brace(b@, from as int) is None,
        },
{
    let ghost pred = |x: u8| x == 0x7du8;
    let mut j: usize = from;
    while j < b.len()
        invariant
            from <= j <= b@.len(),
            pred == (|x: u8| x == 0x7du8),
            first_from(b@, pred, from as int) == first_from(b@, pred, j as int),
        decreases b@.len() - j,
    {
        if b[j] == 0x7d {
            return Some(j);
        }
        j += 1;
    }
    None
}

fn find_name_end(b: &[u8], from: usize) -> (r: usize)
    requires
        from <= b@.len(),
    ensures
        r == name_end(b@, from as int),
        from <= r <= b@.len(),
{
    let mut j: usize = from;
    while j < b.len()
        invariant
            from <= j <= b@.len(),
            name_end(b@, from as int) == name_end(b@, j as int),
        decreases b@.len() - j,
    {
        let c = b[j];
        let named = (0x30 <= c && c <= 0x39) || (0x41 <= c && c <= 0x5a) || (0x61 <= c && c
            <= 0x7a) || c == 0x5f;
        if !named {
            return j;
        }
        j += 1;
    }
    j
}

/// Splits an endpoint URL, given as bytes, into literal bytes and
/// references to environment variables.
pub fn rpc_parts(b: &[u8]) -> (parts: Vec<RpcPart>)
    ensures
        parts@ == rpc_parts_spec(b@),
{
    let mut parts: Vec<RpcPart> = Vec::new();
    let mut i: usize = 0;
    while i < b.len()
        invariant
            i <= b@.len(),
            rpc_parts_spec(b@) == parts@ + rpc_parts_from(b@, i as int),
        decreases b@.len() - i,
    {
        let ghost before = parts@;
        if b[i] != 0x24 {
            parts.push(RpcPart::Literal { at: i });
            assert(parts@ + rpc_parts_from(b@, i as int + 1) =~= before + rpc_parts_from(
                b@,
                i as int,
            ));
            i += 1;
        } else if i + 1 < b.len() && b[i + 1] == 0x7b {
            match find_closing_brace(b, i + 2) {
                Some(end) => {
                    parts.push(RpcPart::Variable { from: i + 2, to: end });
                    assert(parts@ + rpc_parts_from(b@, end as int + 1) =~= before + rpc_parts_from(
                        b@,
                        i as int,
                    ));
                    i = end + 1;
                },
                None => {
                    parts.push(RpcPart::Literal { at: i });
                    assert(parts@ + rpc_parts_from(b@, i as int + 1) =~= before + rpc_parts_from(
                        b@,
                        i as int,
                    ));
                    i += 1;
                },
            }
        } else {
            let end = find_name_end(b, i + 1);
            parts.push(RpcPart::Variable { from: i + 1, to: end });
            assert(parts@ + rpc_parts_from(b@, end as int) =~= before + rpc_parts_from(
                b@,
                i as int,
            ));
            i = end;
        }
    }
    assert(rpc_parts_from(b@, i as int) =~= Seq::empty());
    parts
}


/// Whether no symbol occurs twice in a token list.
pub open spec fn symbols_distinct(rows: Seq<TokenRow>) -> bool {
    forall|i: int, j: int| 0 <= i < j < rows.len() ==> (#[trigger] rows[i]).0 != (#[trigger] rows[j]).0
}

proof fn lemma_put_row_keeps_distinct(rows: Seq<TokenRow>, row: TokenRow)
    requires
        symbols_distinct(rows),
    ensures
        symbols_distinct(put_row(rows, row)),
{
    let pred = |r: TokenRow| r.0 == row.0;
    crate::utils::lemma_first_from(rows, pred, 0);
    let after = put_row(rows, row);
    match first_where(rows, pred) {
        Some(k) => {
            assert forall|i: int, j: int| 0 <= i < j < after.len() implies (#[trigger] after[i]).0
                != (#[trigger] after[j]).0 by {
                assert(rows[i].0 != rows[j].0);
                assert(pred(rows[k]));
            }
        },
        None => {
            assert forall|i: int, j: int| 0 <= i < j < after.len() implies (#[trigger] after[i]).0
                != (#[trigger] after[j]).0 by {
                if j < rows.len() {
                    assert(rows[i].0 != rows[j].0);
                } else {
                    assert(!pred(rows[i]));
                }
            }
        },
    }
}

/// In a normalized token list every symbol occurs once.
pub proof fn lemma_normalized_symbols_distinct(tokens: Seq<(String, Token)>, n: int)
    ensures
        symbols_distinct(normalized_rows(tokens, n)),
    decreases n,
{
    if n > 0 {
        lemma_normalized_symbols_distinct(tokens, n - 1);
        lemma_put_row_keeps_distinct(
            normalized_rows(tokens, n - 1),
            normal_row(token_row(tokens[n - 1])),
        );
    }
}

} // verus!
