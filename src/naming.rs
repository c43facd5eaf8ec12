use vstd::prelude::*;
use vstd::set_lib::{lemma_int_range, lemma_len_subset, lemma_map_size, set_int_range};
use crate::manager::SetupManager;
use crate::model::{Setup, find_setup, lemma_setup_map_key};

verus! {

/// The character of a decimal digit.
pub open spec fn digit_char(d: nat) -> char {
    if d == 0 { '0' }
    else if d == 1 { '1' }
    else if d == 2 { '2' }
    else if d == 3 { '3' }
    else if d == 4 { '4' }
    else if d == 5 { '5' }
    else if d == 6 { '6' }
    else if d == 7 { '7' }
    else if d == 8 { '8' }
    else { '9' }
}

/// `n` written in decimal, without leading zeros.
pub open spec fn decimal(n: nat) -> Seq<char>
    decreases n,
{
    if n < 10 {
        seq![digit_char(n)]
    } else {
        decimal(n / 10).push(digit_char(n % 10))
    }
}

/// The default name of a new setup.
pub open spec fn default_name() -> Seq<char> {
    "New Setup"@
}

/// The `i`-th alternative to the default name, `New Setup (i)`.
pub open spec fn numbered_name(i: nat) -> Seq<char> {
    "New Setup ("@ + decimal(i) + ")"@
}

/// The name a new setup gets when the cache holds `cache`: the default name
/// where it is free, else the numbered name with the least free `i >= 1`.
pub open spec fn is_new_name(cache: Map<Seq<char>, Set<Seq<char>>>, r: Seq<char>) -> bool {
    ||| r == default_name() && !cache.contains_key(default_name())
    ||| cache.contains_key(default_name()) && exists|i: nat|
        #![trigger numbered_name(i)]
        i >= 1 && r == numbered_name(i) && !cache.contains_key(numbered_name(i)) && forall|j: nat|
            1 <= j < i ==> cache.contains_key(#[trigger] numbered_name(j))
}

proof fn lemma_decimal_len(n: nat)
    ensures
        decimal(n).len() >= 1,
        n >= 10 ==> decimal(n).len() >= 2,
    decreases n,
{
    if n >= 10 {
        lemma_decimal_len(n / 10);
    }
}

proof fn lemma_digit_char_injective(x: nat, y: nat)
    requires
        x < 10,
        y < 10,
        digit_char(x) == digit_char(y),
    ensures
        x == y,
{
}

proof fn lemma_decimal_injective(a: nat, b: nat)
    requires
        decimal(a) == decimal(b),
    ensures
        a == b,
    decreases a,
{
    lemma_decimal_len(a);
    lemma_decimal_len(b);
    if a >= 10 && b >= 10 {
        let da = decimal(a);
        let db = decimal(b);
        assert(da.drop_last() =~= decimal(a / 10));
        assert(db.drop_last() =~= decimal(b / 10));
        assert(da.last() == digit_char(a % 10));
        assert(db.last() == digit_char(b % 10));
        lemma_digit_char_injective(a % 10, b % 10);
        lemma_decimal_injective(a / 10, b / 10);
        assert(a == 10 * (a / 10) + a % 10);
        assert(b == 10 * (b / 10) + b % 10);
    } else if a < 10 && b < 10 {
        assert(decimal(a) == seq![digit_char(a)]);
        assert(decimal(b) == seq![digit_char(b)]);
        assert(seq![digit_char(a)][0] == digit_char(a));
        assert(seq![digit_char(b)][0] == digit_char(b));
        lemma_digit_char_injective(a, b);
    } else {
        assert(decimal(a).len() == decimal(b).len());
    }
}

proof fn lemma_numbered_injective(a: nat, b: nat)
    requires
        numbered_name(a) == numbered_name(b),
    ensures
        a == b,
{
    reveal_strlit("New Setup (");
    reveal_strlit(")");
    let pre = "New Setup ("@;
    let x = numbered_name(a);
    let y = numbered_name(b);
    assert(x.subrange(pre.len() as int, x.len() - 1) =~= decimal(a));
    assert(y.subrange(pre.len() as int, y.len() - 1) =~= decimal(b));
    lemma_decimal_injective(a, b);
}

/// The characters of one decimal digit.
fn digit_str(d: u64) -> (r: &'static str)
    requires
        d < 10,
    ensures
        r@ == seq![digit_char(d as nat)],
{
    if d == 0 { proof { reveal_strlit("0"); } "0" }
    else if d == 1 { proof { reveal_strlit("1"); } "1" }
    else if d == 2 { proof { reveal_strlit("2"); } "2" }
    else if d == 3 { proof { reveal_strlit("3"); } "3" }
    else if d == 4 { proof { reveal_strlit("4"); } "4" }
    else if d == 5 { proof { reveal_strlit("5"); } "5" }
    else if d == 6 { proof { reveal_strlit("6"); } "6" }
    else if d == 7 { proof { reveal_strlit("7"); } "7" }
    else if d == 8 { proof { reveal_strlit("8"); } "8" }
    else { proof { reveal_strlit("9"); } "9" }
}

/// `n` written in decimal.
pub fn to_decimal(n: u64) -> (r: String)
    ensures
        r@ == decimal(n as nat),
    decreases n,
{
    if n < 10 {
        String::from_str(digit_str(n))
    } else {
        let mut r = to_decimal(n / 10);
        r.append(digit_str(n % 10));
        r
    }
}

/// `New Setup (i)`.
pub fn numbered(i: u64) -> (r: String)
    ensures
        r@ == numbered_name(i as nat),
{
    let mut r = String::from_str("New Setup (");
    let d = to_decimal(i);
    r.append(d.as_str());
    r.append(")");
    r
}

impl SetupManager {
    /// A name for a new setup that the cache does not hold: `New Setup`, or
    /// else `New Setup (i)` for the least `i >= 1` that is free.
    pub fn new_setup_name(&self) -> (r: String)
        requires
            self.wf(),
            self.setups@.len() < u64::MAX,
        ensures
            is_new_name(self.cache(), r@),
            !self.cache().contains_key(r@),
    {
        let base = String::from_str("New Setup");
        if find_setup(&self.setups, &base).is_none() {
            return base;
        }
        let n = self.setups.len() as u64;
        let mut i: u64 = 1;
        while i <= n
            invariant
                1 <= i <= n + 1,
                n == self.setups@.len(),
                n < u64::MAX,
                self.cache().contains_key(default_name()),
                forall|j: nat| 1 <= j < i ==> self.cache().contains_key(#[trigger] numbered_name(j)),
            decreases n + 1 - i,
        {
            let key = numbered(i);
            if find_setup(&self.setups, &key).is_none() {
                return key;
            }
            i = i + 1;
        }
        proof {
            self.lemma_some_numbered_name_free();
        }
        numbered(n + 1)
    }

    /// Of the names `New Setup (1)` to `New Setup (n + 1)`, with `n` the
    /// number of cached setups, at least one is not cached.
    proof fn lemma_some_numbered_name_free(&self)
        requires
            self.wf(),
        ensures
            exists|j: nat|
                1 <= j <= self.setups@.len() + 1 && !self.cache().contains_key(
                    #[trigger] numbered_name(j),
                ),
    {
        let n = self.setups@.len();
        let names = self.setups@.map_values(|s: Setup| s.name@);
        if forall|j: nat|
            1 <= j <= n + 1 ==> self.cache().contains_key(#[trigger] numbered_name(j)) {
            let range = set_int_range(1, n as int + 2);
            let f = |j: int| numbered_name(j as nat);
            lemma_int_range(1, n as int + 2);
            assert(vstd::relations::injective_on(f, range)) by {
                assert forall|a: int, b: int|
                    range.contains(a) && range.contains(b) && #[trigger] f(a) == #[trigger] f(b)
                    implies a == b by {
                    lemma_numbered_injective(a as nat, b as nat);
                }
            }
            lemma_map_size(range, range.map(f), f);
            assert(range.map(f).subset_of(names.to_set())) by {
                assert forall|x: Seq<char>| range.map(f).contains(x) implies names.to_set().contains(
                    x,
                ) by {
                    let j = choose|j: int| range.contains(j) && f(j) == x;
                    assert(self.cache().contains_key(numbered_name(j as nat)));
                    lemma_setup_map_key(self.setups@, x);
                    let k = choose|k: int| 0 <= k < n && self.setups@[k].name@ == x;
                    assert(names[k] == x);
                }
            }
            names.lemma_cardinality_of_set();
            lemma_len_subset(range.map(f), names.to_set());
        }
    }
}

} // verus!
