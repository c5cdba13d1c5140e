//! The Kotlin side: the mapper generator and the filters of its template.

pub mod filters;

use vstd::prelude::*;
use crate::generator::RNConfig;
use crate::interface::ComponentInterface;
use crate::text::{
    lemma_text_less_asymmetric, lemma_text_less_irreflexive, lemma_text_less_total,
    lemma_text_less_transitive, str_eq, text_less, text_lt,
};

verus! {

/// The texts of a list of strings.
pub open spec fn texts(v: Seq<String>) -> Seq<Seq<char>> {
    v.map_values(|s: String| s@)
}

/// Each text comes strictly before the next: sorted, and no text twice.
pub open spec fn strictly_sorted(s: Seq<Seq<char>>) -> bool {
    forall|i: int, j: int| 0 <= i < j < s.len() ==> text_less(#[trigger] s[i], #[trigger] s[j])
}

/// Generates the Kotlin mapper of an interface, tracking the types that its template
/// uses in sequences.
pub struct MapperGenerator<'a> {
    config: RNConfig,
    ci: &'a ComponentInterface,
    // The types used in sequences, sorted in the order of `String` and without
    // duplicates. A `BTreeSet<String>` would give the same listing, but vstd's
    // specification of `BTreeSet` holds only for keys whose `Ord` obeys its laws, which
    // vstd does not state of `String`, so nothing could be proved of its contents here;
    // held behind wrappers of its own, its insertion and the order of its listing would
    // rest on trusted contracts. Kept by hand in a `Vec`, both are proved.
    sequence_types: Vec<String>,
}

impl<'a> MapperGenerator<'a> {
    /// The generator's sequence types are kept sorted and without duplicates.
    #[verifier::type_invariant]
    spec fn wf(self) -> bool {
        strictly_sorted(texts(self.sequence_types@))
    }

    /// The names of the types that have been added as sequence types.
    pub closed spec fn sequence_type_set(&self) -> Set<Seq<char>> {
        texts(self.sequence_types@).to_set()
    }

    pub closed spec fn config_view(&self) -> RNConfig {
        self.config
    }

    pub closed spec fn ci_view(&self) -> &'a ComponentInterface {
        self.ci
    }

    pub fn new(config: RNConfig, ci: &'a ComponentInterface) -> (r: Self)
        ensures
            r.sequence_type_set() == Set::<Seq<char>>::empty(),
            r.config_view() == config,
            r.ci_view() == ci,
    {
        let r = Self { config, ci, sequence_types: Vec::new() };
        assert(texts(r.sequence_types@).to_set() =~= Set::<Seq<char>>::empty());
        r
    }

    /// Adds a type used in a sequence. Returns the empty text, so that a template
    /// can call it inside an expression block.
    pub fn add_sequence_type(&mut self, type_nm: &str) -> (r: &'static str)
        ensures
            final(self).sequence_type_set() == old(self).sequence_type_set().insert(type_nm@),
            final(self).config_view() == old(self).config_view(),
            final(self).ci_view() == old(self).ci_view(),
            r@ == ""@,
    {
        proof {
            use_type_invariant(&*self);
        }
        let mut types: Vec<String> = Vec::new();
        std::mem::swap(&mut types, &mut self.sequence_types);
        let ghost old_texts = texts(types@);
        let ghost x = type_nm@;
        let n = types.len();
        let mut i: usize = 0;
        while i < n && text_lt(types[i].as_str(), type_nm)
            invariant
                n == types@.len(),
                old_texts == texts(types@),
                x == type_nm@,
                i <= n,
                forall|k: int| 0 <= k < i ==> text_less(#[trigger] old_texts[k], x),
            decreases n - i,
        {
            i = i + 1;
        }
        if i < n && str_eq(types[i].as_str(), type_nm) {
            proof {
                assert(old_texts[i as int] == x);
                assert(old_texts.to_set().insert(x) =~= old_texts.to_set());
            }
        } else {
            types.insert(i, String::from_str(type_nm));
            proof {
                let new_texts = texts(types@);
                assert(new_texts =~= old_texts.insert(i as int, x));
                if i < n {
                    lemma_text_less_total(old_texts[i as int], x);
                    assert(text_less(x, old_texts[i as int]));
                }
                assert forall|a: int, b: int|
                    0 <= a < b < new_texts.len() implies text_less(
                    #[trigger] new_texts[a],
                    #[trigger] new_texts[b],
                ) by {
                    if b < i {
                        assert(text_less(old_texts[a], old_texts[b]));
                    } else if b == i {
                        assert(text_less(old_texts[a], x));
                    } else if a < i {
                        assert(text_less(old_texts[a], x));
                        assert(i < n);
                        if b - 1 > i {
                            assert(text_less(old_texts[i as int], old_texts[b - 1]));
                            lemma_text_less_transitive(x, old_texts[i as int], old_texts[b - 1]);
                        }
                        lemma_text_less_transitive(old_texts[a], x, old_texts[b - 1]);
                    } else if a == i {
                        if b - 1 > i {
                            assert(text_less(old_texts[i as int], old_texts[b - 1]));
                            lemma_text_less_transitive(x, old_texts[i as int], old_texts[b - 1]);
                        }
                    } else {
                        assert(text_less(old_texts[a - 1], old_texts[b - 1]));
                    }
                }
                assert forall|y: Seq<char>| #[trigger] new_texts.to_set().contains(y) <==> old_texts.to_set().insert(x).contains(y) by {
                    if new_texts.to_set().contains(y) {
                        let k = choose|k: int| 0 <= k < new_texts.len() && new_texts[k] == y;
                        if k < i {
                            assert(old_texts[k] == y);
                        } else if k > i {
                            assert(old_texts[k - 1] == y);
                        }
                    }
                    if old_texts.to_set().contains(y) {
                        let k = choose|k: int| 0 <= k < old_texts.len() && old_texts[k] == y;
                        if k < i {
                            assert(new_texts[k] == y);
                        } else {
                            assert(new_texts[k + 1] == y);
                        }
                    }
                    if y == x {
                        assert(new_texts[i as int] == y);
                    }
                }
                assert(new_texts.to_set() =~= old_texts.to_set().insert(x));
            }
        }
        self.sequence_types = types;
        ""
    }

    /// The types used in sequences, sorted and without duplicates.
    pub fn sequence_types(&self) -> (r: Vec<String>)
        ensures
            strictly_sorted(texts(r@)),
            texts(r@).to_set() == self.sequence_type_set(),
    {
        proof {
            use_type_invariant(self);
        }
        let n = self.sequence_types.len();
        let mut out: Vec<String> = Vec::new();
        let mut i: usize = 0;
        while i < n
            invariant
                n == self.sequence_types@.len(),
                i <= n,
                out@.len() == i,
                forall|k: int| 0 <= k < i ==> #[trigger] out@[k]@ == self.sequence_types@[k]@,
            decreases n - i,
        {
            out.push(self.sequence_types[i].clone());
            i = i + 1;
        }
        assert(texts(out@) =~= texts(self.sequence_types@));
        out
    }

    /// The configuration the generator was made with.
    pub fn config(&self) -> (r: &RNConfig)
        ensures
            *r == self.config_view(),
    {
        &self.config
    }

    /// The interface the generator renders.
    pub fn ci(&self) -> (r: &'a ComponentInterface)
        ensures
            r == self.ci_view(),
    {
        self.ci
    }
}

/// A sorted list of texts without duplicates is determined by the set of its texts.
pub proof fn lemma_strictly_sorted_unique(a: Seq<Seq<char>>, b: Seq<Seq<char>>)
    requires
        strictly_sorted(a),
        strictly_sorted(b),
        a.to_set() == b.to_set(),
    ensures
        a == b,
    decreases a.len(),
{
    if a.len() == 0 {
        if b.len() > 0 {
            assert(b.to_set().contains(b[0]));
        }
        assert(a =~= b);
    } else if b.len() == 0 {
        assert(a.to_set().contains(a[0]));
    } else {
        assert(b.to_set().contains(a[0]));
        assert(a.to_set().contains(b[0]));
        let k = choose|k: int| 0 <= k < b.len() && b[k] == a[0];
        let m = choose|m: int| 0 <= m < a.len() && a[m] == b[0];
        if k > 0 && m > 0 {
            assert(text_less(b[0], b[k]));
            assert(text_less(a[0], a[m]));
            lemma_text_less_asymmetric(a[0], b[0]);
        } else if k > 0 {
            assert(text_less(b[0], b[k]));
            lemma_text_less_irreflexive(a[0]);
        }
        assert(a[0] == b[0]);
        let a1 = a.drop_first();
        let b1 = b.drop_first();
        assert forall|y: Seq<char>| #[trigger] a1.to_set().contains(y) implies b1.to_set().contains(
            y,
        ) by {
            let j = choose|j: int| 0 <= j < a1.len() && a1[j] == y;
            assert(a[j + 1] == y);
            assert(text_less(a[0], a[j + 1]));
            assert(b.to_set().contains(y));
            let l = choose|l: int| 0 <= l < b.len() && b[l] == y;
            if l == 0 {
                lemma_text_less_irreflexive(y);
            }
            assert(b1[l - 1] == y);
        }
        assert forall|y: Seq<char>| #[trigger] b1.to_set().contains(y) implies a1.to_set().contains(
            y,
        ) by {
            let j = choose|j: int| 0 <= j < b1.len() && b1[j] == y;
            assert(b[j + 1] == y);
            assert(text_less(b[0], b[j + 1]));
            assert(a.to_set().contains(y));
            let l = choose|l: int| 0 <= l < a.len() && a[l] == y;
            if l == 0 {
                lemma_text_less_irreflexive(y);
            }
            assert(a1[l - 1] == y);
        }
        assert(a1.to_set() =~= b1.to_set());
        assert forall|i: int, j: int| 0 <= i < j < a1.len() implies text_less(
            #[trigger] a1[i],
            #[trigger] a1[j],
        ) by {
            assert(text_less(a[i + 1], a[j + 1]));
        }
        assert forall|i: int, j: int| 0 <= i < j < b1.len() implies text_less(
            #[trigger] b1[i],
            #[trigger] b1[j],
        ) by {
            assert(text_less(b[i + 1], b[j + 1]));
        }
        lemma_strictly_sorted_unique(a1, b1);
        assert(a =~= seq![a[0]] + a1);
        assert(b =~= seq![b[0]] + b1);
    }
}

/// Law: what `sequence_types` lists depends only on the set of names that were added,
/// not on the order in which they were added or on how often: two generators to which
/// the same names were added list the same sequence types.
pub proof fn lemma_sequence_types_depend_on_set(
    g1: &MapperGenerator,
    g2: &MapperGenerator,
    r1: Seq<String>,
    r2: Seq<String>,
)
    requires
        g1.sequence_type_set() == g2.sequence_type_set(),
        strictly_sorted(texts(r1)),
        texts(r1).to_set() == g1.sequence_type_set(),
        strictly_sorted(texts(r2)),
        texts(r2).to_set() == g2.sequence_type_set(),
    ensures
        texts(r1) == texts(r2),
{
    lemma_strictly_sorted_unique(texts(r1), texts(r2));
}

/// Law: adding a name a second time changes nothing, and two names added in either
/// order give generators with the same sequence types (and so, by
/// `lemma_sequence_types_depend_on_set`, the same listing).
pub proof fn lemma_add_sequence_type_idempotent_commutative(
    g0: &MapperGenerator,
    gx: &MapperGenerator,
    gxx: &MapperGenerator,
    gxy: &MapperGenerator,
    gy: &MapperGenerator,
    gyx: &MapperGenerator,
    x: Seq<char>,
    y: Seq<char>,
)
    requires
        gx.sequence_type_set() == g0.sequence_type_set().insert(x),
        gxx.sequence_type_set() == gx.sequence_type_set().insert(x),
        gxy.sequence_type_set() == gx.sequence_type_set().insert(y),
        gy.sequence_type_set() == g0.sequence_type_set().insert(y),
        gyx.sequence_type_set() == gy.sequence_type_set().insert(x),
    ensures
        gxx.sequence_type_set() == gx.sequence_type_set(),
        gxy.sequence_type_set() == gyx.sequence_type_set(),
{
    assert(gx.sequence_type_set().insert(x) =~= gx.sequence_type_set());
    assert(g0.sequence_type_set().insert(x).insert(y) =~= g0.sequence_type_set().insert(y).insert(
        x,
    ));
}

} // verus!
