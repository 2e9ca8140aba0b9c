//! Where the cached client inputs lie, and what a look into the cache yields.

use vstd::prelude::*;
use vstd::string::StringExecFns;

verus! {

/// The character of a decimal digit.
pub open spec fn digit(d: nat) -> char {
    (48 + d) as char
}

/// `n` in decimal, without leading zeros.
pub open spec fn decimal(n: nat) -> Seq<char>
    decreases n,
{
    if n < 10 {
        seq![digit(n)]
    } else {
        decimal(n / 10).push(digit(n % 10))
    }
}

/// The path of the input for a block, relative to the cache directory.
pub open spec fn cache_path(chain_id: u64, block_number: u64) -> Seq<char> {
    "input/"@ + decimal(chain_id as nat) + "/"@ + decimal(block_number as nat) + ".bin"@
}

/// A digit as a string.
fn digit_str(d: u64) -> (s: &'static str)
    requires
        d < 10,
    ensures
        s@ == seq![digit(d as nat)],
{
    proof {
        reveal_strlit("0");
        reveal_strlit("1");
        reveal_strlit("2");
        reveal_strlit("3");
        reveal_strlit("4");
        reveal_strlit("5");
        reveal_strlit("6");
        reveal_strlit("7");
        reveal_strlit("8");
        reveal_strlit("9");
    }
    let s = match d {
        0 => "0",
        1 => "1",
        2 => "2",
        3 => "3",
        4 => "4",
        5 => "5",
        6 => "6",
        7 => "7",
        8 => "8",
        _ => "9",
    };
    assert(s@ =~= seq![digit(d as nat)]);
    s
}

/// Appends `n` in decimal.
fn push_decimal(out: &mut String, n: u64)
    ensures
        final(out)@ == old(out)@ + decimal(n as nat),
    decreases n,
{
    if n >= 10 {
        push_decimal(out, n / 10);
    }
    out.append(digit_str(n % 10));
    assert(out@ =~= old(out)@ + decimal(n as nat));
}

/// The path of the input for a block, relative to the cache directory.
pub fn input_path(chain_id: u64, block_number: u64) -> (path: String)
    ensures
        path@ == cache_path(chain_id, block_number),
{
    let mut path = String::from_str("input/");
    push_decimal(&mut path, chain_id);
    path.append("/");
    push_decimal(&mut path, block_number);
    path.append(".bin");
    path
}

/// What the cache holds for a block: nothing where there is no file, and otherwise the input that
/// the file holds, or the error of reading it.
pub fn try_load_input_from_cache<I, E>(file: Option<Result<I, E>>) -> (loaded: Result<Option<I>, E>)
    ensures
        match file {
            None => loaded == Ok::<Option<I>, E>(None),
            Some(Ok(input)) => loaded == Ok::<Option<I>, E>(Some(input)),
            Some(Err(e)) => loaded == Err::<Option<I>, E>(e),
        },
{
    match file {
        None => Ok(None),
        Some(Ok(input)) => Ok(Some(input)),
        Some(Err(e)) => Err(e),
    }
}

proof fn lemma_decimal_digits(n: nat)
    ensures
        decimal(n).len() > 0,
        forall|i: int| 0 <= i < decimal(n).len() ==> '0' <= #[trigger] decimal(n)[i] <= '9',
    decreases n,
{
    if n >= 10 {
        lemma_decimal_digits(n / 10);
    }
}

proof fn lemma_decimal_injective(m: nat, n: nat)
    requires
        decimal(m) == decimal(n),
    ensures
        m == n,
    decreases m,
{
    lemma_decimal_digits(m / 10);
    lemma_decimal_digits(n / 10);
    let (a, b) = (decimal(m), decimal(n));
    assert(a.last() == digit(m % 10));
    assert(b.last() == digit(n % 10));
    if m >= 10 && n >= 10 {
        assert(a.drop_last() =~= decimal(m / 10));
        assert(b.drop_last() =~= decimal(n / 10));
        lemma_decimal_injective(m / 10, n / 10);
    }
}

/// Different blocks, and blocks of different chains, have different paths.
pub proof fn cache_path_is_injective(chain_a: u64, block_a: u64, chain_b: u64, block_b: u64)
    requires
        cache_path(chain_a, block_a) == cache_path(chain_b, block_b),
    ensures
        chain_a == chain_b,
        block_a == block_b,
{
    reveal_strlit("input/");
    reveal_strlit("/");
    reveal_strlit(".bin");
    let (ca, cb) = (decimal(chain_a as nat), decimal(chain_b as nat));
    let (ba, bb) = (decimal(block_a as nat), decimal(block_b as nat));
    let (pa, pb) = (cache_path(chain_a, block_a), cache_path(chain_b, block_b));
    lemma_decimal_digits(chain_a as nat);
    lemma_decimal_digits(chain_b as nat);
    assert forall|i: int| 0 <= i < ca.len() implies pa[6 + i] == ca[i] by {}
    assert forall|i: int| 0 <= i < cb.len() implies pb[6 + i] == cb[i] by {}
    assert(pa[6int + ca.len()] == '/');
    assert(pb[6int + cb.len()] == '/');
    if ca.len() < cb.len() {
        assert(pb[6int + ca.len()] == cb[ca.len() as int]);
    }
    if cb.len() < ca.len() {
        assert(pa[6int + cb.len()] == ca[cb.len() as int]);
    }
    assert forall|i: int| 0 <= i < ca.len() implies ca[i] == cb[i] by {
        assert(pa[6 + i] == pb[6 + i]);
    }
    assert(ca =~= cb);
    assert(pa.len() == 11 + ca.len() + ba.len());
    assert(pb.len() == 11 + cb.len() + bb.len());
    assert forall|i: int| 0 <= i < ba.len() implies ba[i] == bb[i] by {
        assert(pa[7 + ca.len() + i] == ba[i]);
        assert(pb[7 + cb.len() + i] == bb[i]);
    }
    assert(ba =~= bb);
    lemma_decimal_injective(chain_a as nat, chain_b as nat);
    lemma_decimal_injective(block_a as nat, block_b as nat);
}

} // verus!
