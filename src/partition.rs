//! Splitting a symbol universe into balanced, order-preserving groups, and
//! building the multiplexed subscription URL of each group.

use vstd::prelude::*;
use vstd::string::*;
use crate::text::{concat, lower_of, to_lower};

verus! {

/// Where group `i` of `n` begins in a list of `len` symbols: every group gets
/// `len / n` symbols and the first `len % n` groups get one more.
pub open spec fn piece_start(len: int, n: int, i: int) -> int {
    i * (len / n) + if i < len % n { i } else { len % n }
}

/// The `n` groups of `s`, in order.
pub open spec fn pieces<A>(s: Seq<A>, n: nat) -> Seq<Seq<A>> {
    Seq::new(n, |i: int| s.subrange(piece_start(s.len() as int, n as int, i), piece_start(s.len() as int, n as int, i + 1)))
}

pub open spec fn stream_prefix() -> Seq<char> {
    "wss://fstream.binance.com/stream?streams="@
}

/// The names of `streams` (already lower-case), each with the book-ticker
/// suffix, joined by `/`.
pub open spec fn joined_streams(streams: Seq<Seq<char>>) -> Seq<char>
    decreases streams.len(),
{
    if streams.len() == 0 {
        Seq::empty()
    } else if streams.len() == 1 {
        streams[0] + "@bookTicker"@
    } else {
        joined_streams(streams.drop_last()) + "/"@ + streams.last() + "@bookTicker"@
    }
}

/// The multiplexed subscription URL of the lower-case names `streams`.
pub open spec fn stream_url(streams: Seq<Seq<char>>) -> Seq<char> {
    stream_prefix() + joined_streams(streams)
}

/// The multiplexed subscription URL of `symbols`: each lower-cased first.
pub open spec fn websocket_url(symbols: Seq<String>) -> Seq<char> {
    stream_url(symbols.map_values(|s: String| lower_of(s@)))
}

proof fn lemma_piece_bounds(len: int, n: int, i: int)
    requires
        0 <= len,
        1 <= n,
        0 <= i < n,
    ensures
        piece_start(len, n, i + 1) == piece_start(len, n, i) + len / n + if i < len % n { 1int } else { 0int },
        0 <= piece_start(len, n, i),
        piece_start(len, n, i + 1) <= piece_start(len, n, n),
        piece_start(len, n, n) == len,
        piece_start(len, n, 0) == 0,
{
    let q = len / n;
    let r = len % n;
    assert(len == n * q + r) by (nonlinear_arith)
        requires q == len / n, r == len % n, n >= 1;
    assert(0 <= r < n);
    assert(q >= 0) by (nonlinear_arith)
        requires q == len / n, len >= 0, n >= 1;
    assert((i + 1) * q == i * q + q) by (nonlinear_arith);
    assert((i + 1) * q <= n * q) by (nonlinear_arith)
        requires i + 1 <= n, q >= 0;
    assert(0 <= i * q) by (nonlinear_arith)
        requires i >= 0, q >= 0;
}

proof fn lemma_pieces_prefix<A>(s: Seq<A>, n: nat, m: nat)
    requires
        n >= 1,
        m <= n,
    ensures
        pieces(s, n).subrange(0, m as int).flatten() == s.subrange(0, piece_start(s.len() as int, n as int, m as int)),
    decreases m,
{
    let len = s.len() as int;
    if m == 0 {
        assert(pieces(s, n).subrange(0, 0) =~= Seq::<Seq<A>>::empty());
        assert(s.subrange(0, 0) =~= Seq::<A>::empty());
    } else {
        lemma_pieces_prefix(s, n, (m - 1) as nat);
        lemma_piece_bounds(len, n as int, m - 1);
        let ps = pieces(s, n);
        assert(ps.subrange(0, m as int) =~= ps.subrange(0, m - 1).push(ps[m - 1]));
        ps.subrange(0, m - 1).lemma_flatten_push(ps[m - 1]);
        assert(s.subrange(0, piece_start(len, n as int, m as int)) =~= s.subrange(0, piece_start(len, n as int, m - 1))
            + s.subrange(piece_start(len, n as int, m - 1), piece_start(len, n as int, m as int)));
    }
}

/// The groups of `names` cover it exactly once, in order: there are `n` of
/// them, group `i` is the slice of positions from `piece_start(i)` up to
/// `piece_start(i + 1)`, those slices follow one another without overlap
/// from the first position to the last, their concatenation is `names`, and
/// no two group sizes differ by more than one.
pub proof fn lemma_partition_correct<A>(names: Seq<A>, n: nat)
    requires
        n >= 1,
    ensures
        pieces(names, n).len() == n,
        pieces(names, n).flatten() == names,
        piece_start(names.len() as int, n as int, 0) == 0,
        piece_start(names.len() as int, n as int, n as int) == names.len(),
        forall|i: int, j: int| 0 <= i < j <= n ==>
            piece_start(names.len() as int, n as int, i) <= piece_start(names.len() as int, n as int, j),
        forall|i: int| 0 <= i < n ==> #[trigger] pieces(names, n)[i] == names.subrange(
            piece_start(names.len() as int, n as int, i), piece_start(names.len() as int, n as int, i + 1)),
        forall|i: int, j: int| 0 <= i < n && 0 <= j < n ==>
            #[trigger] pieces(names, n)[i].len() <= #[trigger] pieces(names, n)[j].len() + 1,
{
    let len = names.len() as int;
    lemma_pieces_prefix(names, n, n);
    lemma_piece_bounds(len, n as int, 0);
    assert(pieces(names, n).subrange(0, n as int) =~= pieces(names, n));
    assert(names.subrange(0, len) =~= names);
    assert forall|i: int, j: int| 0 <= i < j <= n implies
        piece_start(len, n as int, i) <= piece_start(len, n as int, j) by {
        let q = len / n as int;
        assert(q >= 0) by (nonlinear_arith)
            requires q == len / n as int, len >= 0, n >= 1;
        assert(i * q <= j * q) by (nonlinear_arith)
            requires i <= j, q >= 0;
    }
    assert forall|i: int, j: int| 0 <= i < n && 0 <= j < n implies
        #[trigger] pieces(names, n)[i].len() <= #[trigger] pieces(names, n)[j].len() + 1 by {
        lemma_piece_bounds(len, n as int, i);
        lemma_piece_bounds(len, n as int, j);
    }
}

/// Splits `names` into `n` groups whose sizes differ by at most one, the
/// larger ones first, keeping the order of `names`.
pub fn partition_symbols(names: &Vec<String>, n: usize) -> (parts: Vec<Vec<String>>)
    requires
        n >= 1,
    ensures
        parts@.len() == n,
        forall|i: int| 0 <= i < n ==> #[trigger] parts@[i]@ == pieces(names@, n as nat)[i],
{
    let len = names.len();
    let q = len / n;
    let r = len % n;
    let mut parts: Vec<Vec<String>> = Vec::new();
    let mut start: usize = 0;
    let mut i: usize = 0;
    while i < n
        invariant
            len == names@.len(),
            q == len / n,
            r == len % n,
            n >= 1,
            i <= n,
            start == piece_start(len as int, n as int, i as int),
            parts@.len() == i,
            forall|k: int| 0 <= k < i ==> #[trigger] parts@[k]@ == pieces(names@, n as nat)[k],
        decreases n - i,
    {
        proof {
            lemma_piece_bounds(len as int, n as int, i as int);
        }
        let size: usize = if i < r { q + 1 } else { q };
        let end: usize = start + size;
        let mut piece: Vec<String> = Vec::new();
        let mut k: usize = start;
        while k < end
            invariant
                start <= k <= end,
                end <= names@.len(),
                piece@ == names@.subrange(start as int, k as int),
            decreases end - k,
        {
            piece.push(names[k].clone());
            k = k + 1;
            assert(piece@ =~= names@.subrange(start as int, k as int));
        }
        parts.push(piece);
        assert(parts@[i as int]@ == pieces(names@, n as nat)[i as int]);
        start = end;
        i = i + 1;
    }
    parts
}

/// The multiplexed subscription URL of names that are already lower-case.
pub fn stream_url_of_lowered(lowered: &[String]) -> (url: String)
    ensures
        url@ == stream_url(lowered@.map_values(|s: String| s@)),
{
    let ghost views = lowered@.map_values(|s: String| s@);
    let mut streams = String::new();
    let mut i: usize = 0;
    while i < lowered.len()
        invariant
            i <= lowered@.len(),
            views == lowered@.map_values(|s: String| s@),
            streams@ == joined_streams(views.subrange(0, i as int)),
        decreases lowered@.len() - i,
    {
        let name = concat(lowered[i].as_str(), "@bookTicker");
        proof {
            let next = views.subrange(0, i + 1);
            assert(next.drop_last() =~= views.subrange(0, i as int));
            assert(next.last() == lowered@[i as int]@);
        }
        if i == 0 {
            streams = name;
        } else {
            streams.append("/");
            streams.append(name.as_str());
        }
        i = i + 1;
    }
    assert(views.subrange(0, lowered@.len() as int) =~= views);
    concat("wss://fstream.binance.com/stream?streams=", streams.as_str())
}

/// The multiplexed subscription URL of `coin_names`: each name lower-cased
/// and suffixed with the book-ticker stream type, all joined by `/`.
pub fn create_websocket_url(coin_names: &[String]) -> (url: String)
    ensures
        url@ == websocket_url(coin_names@),
{
    let mut lowered: Vec<String> = Vec::new();
    let mut i: usize = 0;
    while i < coin_names.len()
        invariant
            i <= coin_names@.len(),
            lowered@.len() == i,
            forall|k: int| 0 <= k < i ==> #[trigger] lowered@[k]@ == lower_of(coin_names@[k]@),
        decreases coin_names@.len() - i,
    {
        lowered.push(to_lower(coin_names[i].as_str()));
        i = i + 1;
    }
    assert(lowered@.map_values(|s: String| s@) =~= coin_names@.map_values(|s: String| lower_of(s@)));
    stream_url_of_lowered(lowered.as_slice())
}

/// One subscription URL for each of the `n` groups of `coin_names`
/// (see `partition_symbols`).
pub fn generate_bookticker_url_in_n_pieces(coin_names: Vec<String>, n: usize) -> (urls: Vec<String>)
    requires
        n >= 1,
    ensures
        urls@.len() == n,
        forall|i: int| 0 <= i < n ==> #[trigger] urls@[i]@ == websocket_url(pieces(coin_names@, n as nat)[i]),
{
    let parts = partition_symbols(&coin_names, n);
    let mut urls: Vec<String> = Vec::new();
    let mut i: usize = 0;
    while i < n
        invariant
            parts@.len() == n,
            forall|k: int| 0 <= k < n ==> #[trigger] parts@[k]@ == pieces(coin_names@, n as nat)[k],
            i <= n,
            urls@.len() == i,
            forall|k: int| 0 <= k < i ==> #[trigger] urls@[k]@ == websocket_url(pieces(coin_names@, n as nat)[k]),
        decreases n - i,
    {
        let url = create_websocket_url(parts[i].as_slice());
        assert(parts@[i as int]@ == pieces(coin_names@, n as nat)[i as int]);
        urls.push(url);
        i = i + 1;
    }
    urls
}

} // verus!
