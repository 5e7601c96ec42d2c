//! The sample store: the latest sample of each symbol.

use crate::models::{BinanceResponse, BinanceResponseView};
use vstd::hash_map::StringHashMap;
use vstd::prelude::*;

verus! {

/// For each symbol seen so far, the sample that came last. A new sample for
/// a symbol takes the place of the one before; nothing else ever leaves.
pub struct SampleStore {
    samples: StringHashMap<BinanceResponse>,
}

impl View for SampleStore {
    type V = Map<Seq<char>, BinanceResponseView>;

    closed spec fn view(&self) -> Map<Seq<char>, BinanceResponseView> {
        self.samples@.map_values(|sample: BinanceResponse| sample@)
    }
}

impl SampleStore {
    #[verifier::type_invariant]
    spec fn holds_finitely_many(&self) -> bool {
        self.samples@.dom().finite()
    }

    /// A store without samples.
    pub fn new() -> (r: SampleStore)
        ensures
            r@ == Map::<Seq<char>, BinanceResponseView>::empty(),
    {
        let r = SampleStore { samples: StringHashMap::new() };
        assert(r@ =~= Map::<Seq<char>, BinanceResponseView>::empty());
        r
    }

    /// Installs `sample` as the latest one of `symbol`.
    pub fn insert(&mut self, symbol: String, sample: BinanceResponse)
        ensures
            final(self)@ == old(self)@.insert(symbol@, sample@),
    {
        proof {
            use_type_invariant(&*self);
        }
        let mut samples: StringHashMap<BinanceResponse> = StringHashMap::new();
        std::mem::swap(&mut self.samples, &mut samples);
        samples.insert(symbol, sample);
        std::mem::swap(&mut self.samples, &mut samples);
        assert(self@ =~= old(self)@.insert(symbol@, sample@));
    }

    /// A copy of the latest sample of `symbol`, if one was seen.
    pub fn get(&self, symbol: &str) -> (r: Option<BinanceResponse>)
        ensures
            match r {
                Some(sample) => self@.contains_key(symbol@) && sample@ == self@[symbol@],
                None => !self@.contains_key(symbol@),
            },
    {
        match self.samples.get(symbol) {
            Some(sample) => Some(sample.clone()),
            None => None,
        }
    }

    /// Whether a sample of `symbol` was seen.
    pub fn contains(&self, symbol: &str) -> (r: bool)
        ensures
            r == self@.contains_key(symbol@),
    {
        self.samples.contains_key(symbol)
    }

    /// The number of symbols with a sample.
    pub fn len(&self) -> (r: usize)
        ensures
            r == self@.dom().len(),
            self@.dom().finite(),
    {
        proof {
            use_type_invariant(self);
        }
        assert(self@.dom() =~= self.samples@.dom());
        self.samples.len()
    }
}

} // verus!
