use vstd::prelude::*;

verus! {

/// Compares two strings character by character. Every position of the
/// shorter input is visited whatever the outcome, so the time taken does not
/// reveal where the first difference lies.
pub fn str_eq(a: &str, b: &str) -> (r: bool)
    ensures
        r == (a@ == b@),
{
    let la = a.unicode_len();
    let lb = b.unicode_len();
    let n = if la < lb { la } else { lb };
    let mut same = la == lb;
    let mut i: usize = 0;
    while i < n
        invariant
            n <= a@.len(),
            n <= b@.len(),
            i <= n,
            la == a@.len(),
            lb == b@.len(),
            n == a@.len() || n == b@.len(),
            same == (la == lb && forall|j: int| 0 <= j < i ==> a@[j] == b@[j]),
        decreases n - i,
    {
        let ca = a.get_char(i);
        let cb = b.get_char(i);
        if ca != cb {
            same = false;
        }
        proof {
            if same {
                assert forall|j: int| 0 <= j < i + 1 implies a@[j] == b@[j] by {}
            }
        }
        i = i + 1;
    }
    proof {
        if same {
            assert(a@ =~= b@);
        }
    }
    same
}

} // verus!
