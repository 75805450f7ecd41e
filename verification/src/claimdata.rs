//! Claim records: one per provenance claim found in a manifest store,
//! normalized from the extraction collaborator's raw entries.

use vstd::prelude::*;
use vstd::string::StringExecFns;

verus! {

/// One provenance claim: its manifest-assigned identifier, the issuer
/// identity, and the names of the tools that produced or edited the content.
pub struct ClaimData {
    pub claim_id: String,
    pub claim_issuer: String,
    pub claim_generator: Vec<String>,
}

/// The abstract value of a [`ClaimData`].
pub ghost struct ClaimView {
    pub claim_id: Seq<char>,
    pub claim_issuer: Seq<char>,
    pub claim_generator: Seq<Seq<char>>,
}

impl View for ClaimData {
    type V = ClaimView;

    open spec fn view(&self) -> ClaimView {
        ClaimView {
            claim_id: self.claim_id@,
            claim_issuer: self.claim_issuer@,
            claim_generator: self.claim_generator.deep_view(),
        }
    }
}

impl DeepView for ClaimData {
    type V = ClaimView;

    open spec fn deep_view(&self) -> ClaimView {
        self.view()
    }
}

/// A raw manifest entry as the extraction collaborator hands it over: the
/// manifest label, and the issuer and generator names as far as the manifest
/// declares them.
pub struct ManifestEntry {
    pub label: String,
    pub issuer: Option<String>,
    pub generator_names: Option<Vec<String>>,
}

/// The abstract value of a [`ManifestEntry`].
pub ghost struct ManifestEntryView {
    pub label: Seq<char>,
    pub issuer: Option<Seq<char>>,
    pub generator_names: Option<Seq<Seq<char>>>,
}

impl View for ManifestEntry {
    type V = ManifestEntryView;

    open spec fn view(&self) -> ManifestEntryView {
        ManifestEntryView {
            label: self.label@,
            issuer: self.issuer.deep_view(),
            generator_names: self.generator_names.deep_view(),
        }
    }
}

impl DeepView for ManifestEntry {
    type V = ManifestEntryView;

    open spec fn deep_view(&self) -> ManifestEntryView {
        self.view()
    }
}

/// The claim record an entry normalizes to: an absent issuer degrades to the
/// literal `"none"`, absent generator names to the empty list.
pub open spec fn claim_of_entry(e: ManifestEntryView) -> ClaimView {
    ClaimView {
        claim_id: e.label,
        claim_issuer: match e.issuer {
            Some(s) => s,
            None => "none"@,
        },
        claim_generator: match e.generator_names {
            Some(v) => v,
            None => Seq::<Seq<char>>::empty(),
        },
    }
}

impl ClaimData {
    pub fn new(claim_id: String, claim_issuer: String, claim_generator: Vec<String>) -> (r:
        ClaimData)
        ensures
            r.claim_id == claim_id,
            r.claim_issuer == claim_issuer,
            r.claim_generator == claim_generator,
    {
        ClaimData { claim_id, claim_issuer, claim_generator }
    }

    /// Normalize one raw manifest entry into a claim record.
    pub fn from_manifest(entry: ManifestEntry) -> (r: ClaimData)
        ensures
            r@ == claim_of_entry(entry@),
    {
        let issuer = match entry.issuer {
            Some(iss) => iss,
            None => String::from_str("none"),
        };
        let generators: Vec<String> = match entry.generator_names {
            Some(list) => list,
            None => Vec::new(),
        };
        let r = ClaimData::new(entry.label, issuer, generators);
        proof {
            assert(r@.claim_generator =~= claim_of_entry(entry@).claim_generator);
        }
        r
    }

    /// Normalize every raw manifest entry, in the order supplied.
    pub fn vec_from_manifest(entries: &Vec<ManifestEntry>) -> (r: Vec<ClaimData>)
        ensures
            r.deep_view() == entries.deep_view().map_values(|e: ManifestEntryView| claim_of_entry(e)),
    {
        let mut vector: Vec<ClaimData> = Vec::new();
        let mut i: usize = 0;
        while i < entries.len()
            invariant
                i <= entries@.len(),
                vector@.len() == i,
                forall|j: int| 0 <= j < i ==> #[trigger] vector@[j]@ == claim_of_entry(entries@[j]@),
            decreases entries@.len() - i,
        {
            let e = clone_entry(&entries[i]);
            let c = ClaimData::from_manifest(e);
            vector.push(c);
            i += 1;
        }
        proof {
            assert(vector.deep_view() =~= entries.deep_view().map_values(
                |e: ManifestEntryView| claim_of_entry(e),
            ));
        }
        vector
    }
}

fn clone_strings(v: &Vec<String>) -> (r: Vec<String>)
    ensures
        r.deep_view() == v.deep_view(),
{
    let mut r: Vec<String> = Vec::new();
    let mut i: usize = 0;
    while i < v.len()
        invariant
            i <= v@.len(),
            r@.len() == i,
            forall|j: int| 0 <= j < i ==> #[trigger] r@[j]@ == v@[j]@,
        decreases v@.len() - i,
    {
        r.push(v[i].clone());
        i += 1;
    }
    proof {
        assert(r.deep_view() =~= v.deep_view());
    }
    r
}

fn clone_entry(e: &ManifestEntry) -> (r: ManifestEntry)
    ensures
        r@ == e@,
{
    let issuer = match &e.issuer {
        Some(s) => Some(s.clone()),
        None => None,
    };
    let generator_names = match &e.generator_names {
        Some(v) => Some(clone_strings(v)),
        None => None,
    };
    ManifestEntry { label: e.label.clone(), issuer, generator_names }
}

} // verus!
