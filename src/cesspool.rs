//! The cesspool level: several binary level probes combined into one figure.
use vstd::prelude::*;

verus! {

/// Probe readings by probe index; `None` until a probe has reported.
pub struct CesspoolLevel {
    pub level: Vec<Option<bool>>,
}

/// Every probe has reported.
pub open spec fn all_reported(s: Seq<Option<bool>>) -> bool {
    forall|i: int| 0 <= i < s.len() ==> (#[trigger] s[i]) is Some
}

/// Number of probes that report liquid.
pub open spec fn occupied(s: Seq<Option<bool>>) -> nat
    decreases s.len(),
{
    if s.len() == 0 {
        0
    } else {
        occupied(s.drop_last()) + if s.last() == Some(true) {
            1nat
        } else {
            0
        }
    }
}

/// `100 * n / len`, rounded to the nearest integer (halves up); zero when
/// there are no probes.
pub open spec fn rounded_percentage(n: nat, len: nat) -> nat {
    if len == 0 {
        0
    } else {
        (200 * n + len) / (2 * len)
    }
}

proof fn lemma_occupied_bounded(s: Seq<Option<bool>>)
    ensures
        occupied(s) <= s.len(),
    decreases s.len(),
{
    if s.len() > 0 {
        lemma_occupied_bounded(s.drop_last());
    }
}

impl CesspoolLevel {
    /// A level with `n` probes, none reported yet.
    pub fn new(n: usize) -> (r: CesspoolLevel)
        ensures
            r.level@.len() == n,
            forall|i: int| 0 <= i < n ==> r.level@[i] is None,
    {
        let mut level: Vec<Option<bool>> = Vec::new();
        let mut k: usize = 0;
        while k < n
            invariant
                k <= n,
                level@.len() == k,
                forall|i: int| 0 <= i < k ==> level@[i] is None,
            decreases n - k,
        {
            level.push(None);
            k = k + 1;
        }
        CesspoolLevel { level }
    }

    /// Adds unreported probes until there are at least `n`.
    pub fn grow_to(&mut self, n: usize)
        ensures
            final(self).level@.len() == if n > old(self).level@.len() {
                n as nat
            } else {
                old(self).level@.len()
            },
            forall|i: int|
                0 <= i < old(self).level@.len() ==> final(self).level@[i] == old(self).level@[i],
            forall|i: int|
                old(self).level@.len() <= i < final(self).level@.len() ==> final(self).level@[i]
                    is None,
    {
        while self.level.len() < n
            invariant
                self.level@.len() >= old(self).level@.len(),
                self.level@.len() <= if n > old(self).level@.len() {
                    n as nat
                } else {
                    old(self).level@.len()
                },
                forall|i: int|
                    0 <= i < old(self).level@.len() ==> self.level@[i] == old(self).level@[i],
                forall|i: int|
                    old(self).level@.len() <= i < self.level@.len() ==> self.level@[i] is None,
            decreases n - self.level@.len(),
        {
            self.level.push(None);
        }
    }

    /// Records the reading of probe `index` (zero-based).
    pub fn set(&mut self, index: usize, value: bool)
        requires
            index < old(self).level@.len(),
        ensures
            final(self).level@ == old(self).level@.update(index as int, Some(value)),
    {
        self.level.set(index, Some(value));
    }

    /// Whether every probe has reported.
    pub fn got_all_sensors(&self) -> (r: bool)
        ensures
            r == all_reported(self.level@),
    {
        let mut k: usize = 0;
        while k < self.level.len()
            invariant
                k <= self.level@.len(),
                forall|i: int| 0 <= i < k ==> (#[trigger] self.level@[i]) is Some,
            decreases self.level@.len() - k,
        {
            if self.level[k].is_none() {
                return false;
            }
            k = k + 1;
        }
        true
    }

    /// Number of probes that report liquid.
    pub fn occupied_count(&self) -> (r: usize)
        ensures
            r == occupied(self.level@),
    {
        let mut count: usize = 0;
        let mut k: usize = 0;
        while k < self.level.len()
            invariant
                k <= self.level@.len(),
                count == occupied(self.level@.subrange(0, k as int)),
                count <= k,
            decreases self.level@.len() - k,
        {
            assert(self.level@.subrange(0, k + 1).drop_last() =~= self.level@.subrange(0, k as int));
            match self.level[k] {
                Some(true) => {
                    count = count + 1;
                },
                _ => {},
            }
            k = k + 1;
        }
        assert(self.level@.subrange(0, k as int) =~= self.level@);
        count
    }

    /// The level as the LCD shows it: the number of probes reporting liquid
    /// (modulo 256).
    pub fn get_level_lcd(&self) -> (r: u8)
        ensures
            r == occupied(self.level@) % 256,
    {
        let n = self.occupied_count();
        (n % 256) as u8
    }

    /// The level in percent: `round(100 * occupied / probes)`, zero without
    /// probes.
    pub fn get_level_percentage(&self) -> (r: u8)
        ensures
            r == rounded_percentage(occupied(self.level@), self.level@.len()),
            r <= 100,
    {
        let n = self.occupied_count();
        let len = self.level.len();
        if len == 0 {
            return 0;
        }
        proof {
            lemma_occupied_bounded(self.level@);
        }
        let num: u128 = 200 * (n as u128) + (len as u128);
        let den: u128 = 2 * (len as u128);
        assert(num / den <= 100) by (nonlinear_arith)
            requires
                num == 200 * n + len,
                den == 2 * len,
                n <= len,
                len > 0,
        {
            assert(num <= 201 * len);
            assert(num < 202 * len);
            assert(num < 101 * den);
        }
        (num / den) as u8
    }

    /// One mark per reported probe: red for liquid, black for none.
    pub fn to_display_string(&self) -> (r: String)
        ensures
            r@ == display_of(self.level@),
    {
        let mut out = String::new();
        let mut k: usize = 0;
        while k < self.level.len()
            invariant
                k <= self.level@.len(),
                out@ == display_of(self.level@.subrange(0, k as int)),
            decreases self.level@.len() - k,
        {
            assert(self.level@.subrange(0, k + 1).drop_last() =~= self.level@.subrange(0, k as int));
            match self.level[k] {
                Some(true) => {
                    out.append(LIQUID_MARK);
                },
                Some(false) => {
                    out.append(EMPTY_MARK);
                },
                None => {},
            }
            k = k + 1;
        }
        assert(self.level@.subrange(0, k as int) =~= self.level@);
        out
    }
}

pub const LIQUID_MARK: &'static str = "\u{1f534}\u{1f534}\u{1f534}\u{1f534}";
pub const EMPTY_MARK: &'static str = "\u{26ab}\u{26ab}\u{26ab}\u{26ab}";

/// The marks for the reported probes, in probe order.
pub open spec fn display_of(s: Seq<Option<bool>>) -> Seq<char>
    decreases s.len(),
{
    if s.len() == 0 {
        Seq::empty()
    } else {
        display_of(s.drop_last()) + match s.last() {
            Some(true) => LIQUID_MARK@,
            Some(false) => EMPTY_MARK@,
            None => Seq::empty(),
        }
    }
}

} // verus!
