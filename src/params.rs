use vstd::prelude::*;

verus! {

/// Number of parameter slots; a tiling type uses the first `num_params`.
pub const PARAM_SLOTS: usize = 6;

/// The six parameter slots of a tiling, of which the first `num_params` are
/// meaningful.
#[derive(Debug, Clone, Copy)]
pub struct ParamSlots<P> {
    values: [P; 6],
}

impl<P: Copy> ParamSlots<P> {
    pub closed spec fn values(&self) -> Seq<P> {
        self.values@
    }

    /// All slots set to `fill`.
    pub fn new(fill: P) -> (r: Self)
        ensures
            r.values() == Seq::new(6, |_i: int| fill),
    {
        let r = ParamSlots { values: [fill, fill, fill, fill, fill, fill] };
        proof {
            assert(r.values() =~= Seq::new(6, |_i: int| fill));
        }
        r
    }

    /// Replaces every slot.
    pub fn set_parameters(&mut self, params: &[P; 6])
        ensures
            final(self).values() == params@,
    {
        self.values = *params;
    }

    /// Copies every slot into `params`.
    pub fn parameters(&self, params: &mut [P; 6])
        ensures
            final(params)@ == self.values(),
    {
        *params = self.values;
    }

    /// Writes a type's default parameters into the first slots and leaves
    /// the others as they were.
    pub fn load_defaults(&mut self, defaults: &Vec<P>)
        requires
            defaults@.len() <= PARAM_SLOTS,
        ensures
            final(self).values().len() == PARAM_SLOTS,
            forall|i: int|
                0 <= i < PARAM_SLOTS ==> #[trigger] final(self).values()[i] == if i < defaults@.len() {
                    defaults@[i]
                } else {
                    old(self).values()[i]
                },
    {
        let n = defaults.len();
        let mut i: usize = 0;
        while i < n
            invariant
                n == defaults@.len(),
                n <= PARAM_SLOTS,
                i <= n,
                self.values@.len() == PARAM_SLOTS,
                forall|j: int|
                    0 <= j < PARAM_SLOTS ==> #[trigger] self.values@[j] == if j < i {
                        defaults@[j]
                    } else {
                        old(self).values@[j]
                    },
            decreases n - i,
        {
            self.values.set(i, defaults[i]);
            i += 1;
        }
    }
}

/// Setting the parameters and reading them back gives the values set, in
/// every slot and so in the meaningful ones.
pub proof fn lemma_parameters_round_trip<P: Copy>(
    after: ParamSlots<P>,
    set: Seq<P>,
    read: Seq<P>,
)
    requires
        set.len() == PARAM_SLOTS,
        after.values() == set,
        read == after.values(),
    ensures
        forall|i: int| 0 <= i < PARAM_SLOTS ==> #[trigger] read[i] == set[i],
{
}

} // verus!
