//! Signers and the vote sets that hold them.
use vstd::prelude::*;

verus! {

broadcast use vstd::seq_lib::group_seq_properties;

/// The bytes of the principal that `text` spells, or `None` where it spells none.
pub uninterp spec fn principal_of_text(text: Seq<char>) -> Option<Seq<u8>>;

/// The textual form of the principal with these bytes.
pub uninterp spec fn text_of_principal(bytes: Seq<u8>) -> Seq<char>;

/// The ledger account identifier of the default subaccount of the principal with these bytes.
pub uninterp spec fn ledger_account_of(owner: Seq<u8>) -> Seq<u8>;

/// The most bytes a principal holds.
pub const MAX_PRINCIPAL_LEN: usize = 29;

/// Relies on `candid::Principal::from_text`, which parses the textual form of a
/// principal (checksum and grouping included) and yields at most 29 bytes.
#[verifier::external_body]
fn parse_principal(text: &str) -> (r: Option<Vec<u8>>)
    ensures
        r is Some <==> principal_of_text(text@) is Some,
        r is Some ==> r->0@ == principal_of_text(text@)->0,
        r is Some ==> r->0@.len() <= MAX_PRINCIPAL_LEN,
{
    candid::Principal::from_text(text).ok().map(|p| p.as_slice().to_vec())
}

/// Relies on `candid::Principal::to_text`, whose output `candid::Principal::from_text`
/// parses back to the same bytes. `Principal::from_slice` panics beyond 29 bytes.
#[verifier::external_body]
fn principal_text(bytes: &[u8]) -> (r: String)
    requires
        bytes@.len() <= MAX_PRINCIPAL_LEN,
    ensures
        r@ == text_of_principal(bytes@),
        principal_of_text(r@) == Some(bytes@),
{
    candid::Principal::from_slice(bytes).to_text()
}

/// Relies on `ic_ledger_types::AccountIdentifier::new` with the default subaccount,
/// which yields 32 bytes. `Principal::from_slice` panics beyond 29 bytes.
#[verifier::external_body]
fn account_identifier(owner: &[u8]) -> (r: Vec<u8>)
    requires
        owner@.len() <= MAX_PRINCIPAL_LEN,
    ensures
        r@ == ledger_account_of(owner@),
        r@.len() == 32,
{
    let owner = candid::Principal::from_slice(owner);
    ic_ledger_types::AccountIdentifier::new(&owner, &ic_ledger_types::DEFAULT_SUBACCOUNT).as_ref().to_vec()
}

/// An identity that may approve or reject intents, held as the bytes of its principal.
/// Two signers are the same identity exactly when their bytes are equal.
#[derive(Debug)]
pub struct Signer {
    bytes: Vec<u8>,
}

impl View for Signer {
    type V = Seq<u8>;

    closed spec fn view(&self) -> Seq<u8> {
        self.bytes@
    }
}

impl Signer {
    pub fn new(bytes: Vec<u8>) -> (r: Signer)
        ensures
            r@ == bytes@,
    {
        Signer { bytes }
    }

    pub fn as_bytes(&self) -> (r: &[u8])
        ensures
            r@ == self@,
    {
        self.bytes.as_slice()
    }

    /// The signer whose principal `text` spells, if it spells one.
    pub fn from_text(text: &str) -> (r: Option<Signer>)
        ensures
            r is Some <==> principal_of_text(text@) is Some,
            r is Some ==> r->0@ == principal_of_text(text@)->0,
            r is Some ==> r->0@.len() <= MAX_PRINCIPAL_LEN,
    {
        match parse_principal(text) {
            Some(bytes) => Some(Signer { bytes }),
            None => None,
        }
    }

    /// The textual form of the signer's principal; `None` where the bytes are too many
    /// for a principal.
    pub fn to_text(&self) -> (r: Option<String>)
        ensures
            r is Some <==> self@.len() <= MAX_PRINCIPAL_LEN,
            r is Some ==> r->0@ == text_of_principal(self@),
            r is Some ==> principal_of_text(r->0@) == Some(self@),
    {
        if self.bytes.len() <= MAX_PRINCIPAL_LEN {
            Some(principal_text(self.bytes.as_slice()))
        } else {
            None
        }
    }

    /// The ledger account of the signer's default subaccount; `None` where the bytes are
    /// too many for a principal.
    pub fn ledger_account(&self) -> (r: Option<Vec<u8>>)
        ensures
            r is Some <==> self@.len() <= MAX_PRINCIPAL_LEN,
            r is Some ==> r->0@ == ledger_account_of(self@) && r->0@.len() == 32,
    {
        if self.bytes.len() <= MAX_PRINCIPAL_LEN {
            Some(account_identifier(self.bytes.as_slice()))
        } else {
            None
        }
    }

    /// Whether both signers denote the same identity.
    pub fn same_as(&self, other: &Signer) -> (r: bool)
        ensures
            r == (self@ == other@),
    {
        let a = &self.bytes;
        let b = &other.bytes;
        if a.len() != b.len() {
            return false;
        }
        let mut i: usize = 0;
        while i < a.len()
            invariant
                a@ == self@,
                b@ == other@,
                a@.len() == b@.len(),
                i <= a@.len(),
                forall|j: int| 0 <= j < i ==> a@[j] == b@[j],
            decreases a@.len() - i,
        {
            if a[i] != b[i] {
                assert(a@[i as int] != b@[i as int]);
                return false;
            }
            i = i + 1;
        }
        assert(a@ =~= b@);
        true
    }

    /// A second handle on the same identity.
    pub fn duplicate(&self) -> (r: Signer)
        ensures
            r@ == self@,
    {
        let mut bytes: Vec<u8> = Vec::with_capacity(self.bytes.len());
        let mut i: usize = 0;
        while i < self.bytes.len()
            invariant
                i <= self.bytes@.len(),
                bytes@ =~= self.bytes@.take(i as int),
            decreases self.bytes@.len() - i,
        {
            bytes.push(self.bytes[i]);
            i = i + 1;
            assert(bytes@ =~= self.bytes@.take(i as int));
        }
        assert(self.bytes@.take(i as int) =~= self.bytes@);
        Signer { bytes }
    }
}

/// The identities held by a vote set, in the order they were recorded.
pub open spec fn signer_views(v: Seq<Signer>) -> Seq<Seq<u8>> {
    v.map_values(|s: Signer| s@)
}

/// A vote set after recording `s` in it: unchanged where `s` is already there.
pub open spec fn with_signer(v: Seq<Seq<u8>>, s: Seq<u8>) -> Seq<Seq<u8>> {
    if v.contains(s) {
        v
    } else {
        v.push(s)
    }
}

/// Holds of every identity but `s`.
pub open spec fn other_than(s: Seq<u8>) -> spec_fn(Seq<u8>) -> bool {
    |x: Seq<u8>| x != s
}

/// A vote set after taking `s` out of it.
pub open spec fn without_signer(v: Seq<Seq<u8>>, s: Seq<u8>) -> Seq<Seq<u8>> {
    v.filter(other_than(s))
}

pub proof fn lemma_views_push(v: Seq<Signer>, s: Signer)
    ensures
        signer_views(v.push(s)) == signer_views(v).push(s@),
{
    assert(signer_views(v.push(s)) =~= signer_views(v).push(s@));
}

/// Recording a signer keeps a vote set free of duplicates, and adds exactly that signer.
pub proof fn lemma_with_signer(v: Seq<Seq<u8>>, s: Seq<u8>)
    requires
        v.no_duplicates(),
    ensures
        with_signer(v, s).no_duplicates(),
        with_signer(v, s).to_set() == v.to_set().insert(s),
        forall|x: Seq<u8>| #[trigger] with_signer(v, s).contains(x) <==> (v.contains(x) || x == s),
{
    if !v.contains(s) {
        let w = v.push(s);
        assert forall|i: int, j: int| 0 <= i < w.len() && 0 <= j < w.len() && i != j
            implies w[i] != w[j] by {
            if i == v.len() {
                assert(v.contains(w[j]));
            } else if j == v.len() {
                assert(v.contains(w[i]));
            }
        }
    }
    assert(with_signer(v, s).to_set() =~= v.to_set().insert(s));
}

/// Taking a signer out keeps a vote set free of duplicates, and removes exactly that signer.
pub proof fn lemma_without_signer(v: Seq<Seq<u8>>, s: Seq<u8>)
    requires
        v.no_duplicates(),
    ensures
        without_signer(v, s).no_duplicates(),
        without_signer(v, s).to_set() == v.to_set().remove(s),
        forall|x: Seq<u8>| #[trigger] without_signer(v, s).contains(x) <==> (v.contains(x) && x != s),
        !v.contains(s) ==> without_signer(v, s) == v,
    decreases v.len(),
{
    let pred = other_than(s);
    if v.len() > 0 {
        let rest = v.drop_last();
        assert(rest.no_duplicates());
        lemma_without_signer(rest, s);
        assert(v == rest.push(v.last()));
        rest.lemma_filter_push(v.last(), pred);
        let f = without_signer(v, s);
        let fr = without_signer(rest, s);
        assert(!rest.contains(v.last()));
        assert forall|x: Seq<u8>| #[trigger] f.contains(x) <==> (v.contains(x) && x != s) by {
            if f.contains(x) && x != v.last() {
                assert(fr.contains(x));
            }
            if v.contains(x) && x != s && x != v.last() {
                let k = choose|k: int| 0 <= k < v.len() && v[k] == x;
                assert(rest[k] == x);
            }
        }
        if v.last() != s {
            assert(f == fr.push(v.last()));
            assert forall|i: int, j: int| 0 <= i < f.len() && 0 <= j < f.len() && i != j
                implies f[i] != f[j] by {
                if i == fr.len() {
                    assert(fr.contains(f[j]));
                } else if j == fr.len() {
                    assert(fr.contains(f[i]));
                }
            }
        }
        if !v.contains(s) {
            assert(f == fr.push(v.last()));
        }
    } else {
        reveal(Seq::filter);
    }
    assert(without_signer(v, s).to_set() =~= v.to_set().remove(s));
}

/// Whether `s` is among the recorded signers.
pub fn holds_signer(v: &Vec<Signer>, s: &Signer) -> (r: bool)
    ensures
        r == signer_views(v@).contains(s@),
{
    let mut i: usize = 0;
    while i < v.len()
        invariant
            i <= v@.len(),
            forall|j: int| 0 <= j < i ==> v@[j]@ != s@,
        decreases v@.len() - i,
    {
        if v[i].same_as(s) {
            assert(signer_views(v@)[i as int] == s@);
            return true;
        }
        i = i + 1;
    }
    proof {
        if signer_views(v@).contains(s@) {
            let k = choose|k: int| 0 <= k < signer_views(v@).len() && signer_views(v@)[k] == s@;
            assert(v@[k]@ == s@);
        }
    }
    false
}

/// Records `s` in a vote set, once.
pub fn add_signer(v: &mut Vec<Signer>, s: &Signer)
    ensures
        signer_views(final(v)@) == with_signer(signer_views(old(v)@), s@),
{
    if !holds_signer(v, s) {
        let c = s.duplicate();
        proof {
            lemma_views_push(v@, c);
        }
        v.push(c);
    }
}

/// Takes `s` out of a vote set.
pub fn remove_signer(v: &mut Vec<Signer>, s: &Signer)
    ensures
        signer_views(final(v)@) == without_signer(signer_views(old(v)@), s@),
{
    let ghost pred = other_than(s@);
    let mut kept: Vec<Signer> = Vec::new();
    let mut i: usize = 0;
    while i < v.len()
        invariant
            i <= v@.len(),
            pred == other_than(s@),
            signer_views(kept@) == signer_views(v@).take(i as int).filter(pred),
        decreases v@.len() - i,
    {
        proof {
            assert(signer_views(v@).take(i + 1) == signer_views(v@).take(i as int).push(v@[i as int]@));
            signer_views(v@).take(i as int).lemma_filter_push(v@[i as int]@, pred);
        }
        let ghost before = kept@;
        if !v[i].same_as(s) {
            let c = v[i].duplicate();
            proof {
                lemma_views_push(kept@, c);
            }
            kept.push(c);
            assert(signer_views(kept@) == signer_views(before).push(v@[i as int]@));
        }
        i = i + 1;
    }
    assert(signer_views(v@).take(i as int) == signer_views(v@));
    *v = kept;
}

} // verus!
