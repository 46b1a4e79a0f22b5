use vstd::prelude::*;

verus! {

/// File name of the server binary, as it appears in the path the server was
/// started by.
pub const SERVER_FILE_MARKER: &'static str = "occlum_exec_server";

/// File name of the socket that the server listens on, next to its binary.
pub const SOCK_FILE_MARKER: &'static str = "occlum_exec.sock";

/// `s` with every occurrence of `from` replaced by `to`, scanning left to
/// right and never letting two replaced occurrences overlap.
pub open spec fn replaced(s: Seq<char>, from: Seq<char>, to: Seq<char>) -> Seq<char>
    decreases s.len(),
{
    if s.len() == 0 {
        Seq::empty()
    } else if 0 < from.len() <= s.len() && s.subrange(0, from.len() as int) == from {
        to + replaced(s.subrange(from.len() as int, s.len() as int), from, to)
    } else {
        seq![s[0]] + replaced(s.subrange(1, s.len() as int), from, to)
    }
}

/// True when `from` occurs in `s` starting at position `i`.
pub open spec fn occurs_at(s: Seq<char>, from: Seq<char>, i: int) -> bool {
    0 <= i && i + from.len() <= s.len() && s.subrange(i, i + from.len()) == from
}

/// Decides whether `from` occurs in `s` at character position `i`.
fn matches_at(s: &str, from: &str, i: usize) -> (r: bool)
    requires
        i <= s@.len(),
    ensures
        r == occurs_at(s@, from@, i as int),
{
    let n = s.unicode_len();
    let m = from.unicode_len();
    if m > n - i {
        return false;
    }
    let mut k: usize = 0;
    while k < m
        invariant
            n == s@.len(),
            m == from@.len(),
            i + m <= n,
            k <= m,
            forall|j: int| 0 <= j < k ==> s@[i + j] == from@[j],
        decreases m - k,
    {
        if s.get_char(i + k) != from.get_char(k) {
            assert(s@.subrange(i as int, i + m)[k as int] != from@[k as int]);
            return false;
        }
        k = k + 1;
    }
    assert(s@.subrange(i as int, i + m) =~= from@);
    true
}

/// Returns `s` with every non-overlapping occurrence of `from`, found from
/// the left, replaced by `to`. An empty `from` leaves `s` as it is.
pub fn replace_all(s: &str, from: &str, to: &str) -> (r: String)
    ensures
        r@ == replaced(s@, from@, to@),
{
    let n = s.unicode_len();
    let m = from.unicode_len();
    let mut out = String::new();
    let mut i: usize = 0;
    assert(s@.subrange(0, n as int) =~= s@);
    assert(out@ + replaced(s@, from@, to@) =~= replaced(s@, from@, to@));
    while i < n
        invariant
            n == s@.len(),
            m == from@.len(),
            i <= n,
            out@ + replaced(s@.subrange(i as int, n as int), from@, to@) == replaced(s@, from@, to@),
        decreases n - i,
    {
        let ghost rest = s@.subrange(i as int, n as int);
        if m > 0 && matches_at(s, from, i) {
            assert(rest.subrange(0, m as int) =~= s@.subrange(i as int, i + m));
            assert(rest.subrange(m as int, rest.len() as int) =~= s@.subrange(i + m, n as int));
            out.append(to);
            i = i + m;
        } else {
            assert(!(0 < from@.len() <= rest.len() && rest.subrange(0, from@.len() as int) == from@))
                by {
                if 0 < from@.len() <= rest.len() {
                    assert(rest.subrange(0, m as int) =~= s@.subrange(i as int, i + m));
                }
            };
            assert(rest.subrange(1, rest.len() as int) =~= s@.subrange(i + 1, n as int));
            let c = s.substring_char(i, i + 1);
            assert(c@ =~= seq![rest[0]]);
            out.append(c);
            i = i + 1;
        }
    }
    assert(s@.subrange(n as int, n as int) =~= Seq::<char>::empty());
    out
}

/// Derives the address of the server's socket from the path the server was
/// started by: each occurrence of the server binary's file name becomes the
/// socket's file name.
pub fn sock_path_for(invocation: &str) -> (r: String)
    ensures
        r@ == replaced(invocation@, SERVER_FILE_MARKER@, SOCK_FILE_MARKER@),
{
    replace_all(invocation, SERVER_FILE_MARKER, SOCK_FILE_MARKER)
}

} // verus!
