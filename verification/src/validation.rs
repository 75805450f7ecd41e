//! Trust records: the cryptographic validation outcome of the active
//! manifest, normalized into per-certificate records and overall counts.

use vstd::prelude::*;
use vstd::string::StringExecFns;

verus! {

/// Overall validation outcome for the active manifest.
#[derive(Clone, Copy, PartialEq, Eq, Structural, Debug)]
pub enum ValidationState {
    Valid,
    Trusted,
    Invalid,
}

/// The kind of one certificate status code.
#[derive(Clone, Copy, PartialEq, Eq, Structural, Debug)]
pub enum StatusKind {
    Success,
    Informational,
    Failure,
}

/// One raw status code as the extraction collaborator hands it over: its
/// source locator, machine-readable code, explanation and kind.
pub struct StatusRecord {
    pub url: Option<String>,
    pub code: String,
    pub explanation: Option<String>,
    pub kind: StatusKind,
}

/// The abstract value of a [`StatusRecord`].
pub ghost struct StatusRecordView {
    pub url: Option<Seq<char>>,
    pub code: Seq<char>,
    pub explanation: Option<Seq<char>>,
    pub kind: StatusKind,
}

impl View for StatusRecord {
    type V = StatusRecordView;

    open spec fn view(&self) -> StatusRecordView {
        StatusRecordView {
            url: self.url.deep_view(),
            code: self.code@,
            explanation: self.explanation.deep_view(),
            kind: self.kind,
        }
    }
}

impl DeepView for StatusRecord {
    type V = StatusRecordView;

    open spec fn deep_view(&self) -> StatusRecordView {
        self.view()
    }
}

/// The three status-code buckets of the active manifest, in the fixed order
/// the trust record concatenates them.
pub struct StatusBuckets {
    pub success: Vec<StatusRecord>,
    pub informational: Vec<StatusRecord>,
    pub failure: Vec<StatusRecord>,
}

/// The abstract value of [`StatusBuckets`].
pub ghost struct StatusBucketsView {
    pub success: Seq<StatusRecordView>,
    pub informational: Seq<StatusRecordView>,
    pub failure: Seq<StatusRecordView>,
}

impl View for StatusBuckets {
    type V = StatusBucketsView;

    open spec fn view(&self) -> StatusBucketsView {
        StatusBucketsView {
            success: self.success.deep_view(),
            informational: self.informational.deep_view(),
            failure: self.failure.deep_view(),
        }
    }
}

/// A raw validation result: the overall state, and the active manifest's
/// status-code buckets where an active manifest exists.
pub struct ValidationOutcome {
    pub state: ValidationState,
    pub active_manifest: Option<StatusBuckets>,
}

/// One certificate record of the trust record.
pub struct Certificate {
    pub cert_id: String,
    pub cert_code: String,
    pub cert_explanation: String,
    pub cert_valid: bool,
}

/// The abstract value of a [`Certificate`].
pub ghost struct CertificateView {
    pub cert_id: Seq<char>,
    pub cert_code: Seq<char>,
    pub cert_explanation: Seq<char>,
    pub cert_valid: bool,
}

impl View for Certificate {
    type V = CertificateView;

    open spec fn view(&self) -> CertificateView {
        CertificateView {
            cert_id: self.cert_id@,
            cert_code: self.cert_code@,
            cert_explanation: self.cert_explanation@,
            cert_valid: self.cert_valid,
        }
    }
}

impl DeepView for Certificate {
    type V = CertificateView;

    open spec fn deep_view(&self) -> CertificateView {
        self.view()
    }
}

/// The certificate record a status code normalizes to: an absent locator or
/// explanation degrades to the literal `"n/a"`; only a success-kind code is
/// marked valid.
pub open spec fn cert_of_status(s: StatusRecordView) -> CertificateView {
    CertificateView {
        cert_id: match s.url {
            Some(u) => u,
            None => "n/a"@,
        },
        cert_code: s.code,
        cert_explanation: match s.explanation {
            Some(e) => e,
            None => "n/a"@,
        },
        cert_valid: s.kind == StatusKind::Success,
    }
}

/// The certificate list a set of buckets normalizes to: success codes first,
/// then informational, then failure.
pub open spec fn certs_of_buckets(b: StatusBucketsView) -> Seq<CertificateView> {
    b.success.map_values(|s: StatusRecordView| cert_of_status(s)) + b.informational.map_values(
        |s: StatusRecordView| cert_of_status(s),
    ) + b.failure.map_values(|s: StatusRecordView| cert_of_status(s))
}

impl Certificate {
    pub fn new(cert_id: String, cert_code: String, cert_explanation: String, cert_valid: bool) -> (r:
        Certificate)
        ensures
            r.cert_id == cert_id,
            r.cert_code == cert_code,
            r.cert_explanation == cert_explanation,
            r.cert_valid == cert_valid,
    {
        Certificate { cert_id, cert_code, cert_explanation, cert_valid }
    }

    /// Normalize one raw status code into a certificate record.
    pub fn from_status(status: StatusRecord) -> (r: Certificate)
        ensures
            r@ == cert_of_status(status@),
    {
        let id = match status.url {
            Some(url) => url,
            None => String::from_str("n/a"),
        };
        let explanation = match status.explanation {
            Some(expl) => expl,
            None => String::from_str("n/a"),
        };
        let is_valid = match status.kind {
            StatusKind::Success => true,
            _ => false,
        };
        Certificate::new(id, status.code, explanation, is_valid)
    }

    /// Normalize the buckets into one certificate list, success codes first,
    /// then informational, then failure; beside it the total count and the
    /// count of success-bucket codes.
    pub fn vec_from_codes(codes: StatusBuckets) -> (r: (Vec<Certificate>, usize, usize))
        ensures
            r.0.deep_view() == certs_of_buckets(codes@),
            r.1 == r.0@.len(),
            r.1 == codes@.success.len() + codes@.informational.len() + codes@.failure.len(),
            r.2 == codes@.success.len(),
    {
        let ghost cv = codes@;
        let StatusBuckets { success, informational, failure } = codes;
        let valid_count = success.len();
        let mut vector: Vec<Certificate> = Vec::new();
        push_certs(&mut vector, success);
        push_certs(&mut vector, informational);
        push_certs(&mut vector, failure);
        proof {
            assert(vector.deep_view() =~= certs_of_buckets(cv));
        }
        let len = vector.len();
        (vector, len, valid_count)
    }
}

fn push_certs(vector: &mut Vec<Certificate>, codes: Vec<StatusRecord>)
    ensures
        final(vector).deep_view() == old(vector).deep_view() + codes.deep_view().map_values(
            |s: StatusRecordView| cert_of_status(s),
        ),
{
    let ghost orig = vector.deep_view();
    let ghost cvs = codes.deep_view();
    let mut rest = codes;
    let ghost n = cvs.len();
    while rest.len() > 0
        invariant
            rest@.len() <= n == cvs.len(),
            vector@.len() == orig.len() + (n - rest@.len()),
            forall|j: int| 0 <= j < orig.len() ==> #[trigger] vector@[j]@ == orig[j],
            forall|j: int|
                orig.len() <= j < vector@.len() ==> #[trigger] vector@[j]@ == cert_of_status(
                    cvs[j - orig.len()],
                ),
            forall|j: int|
                0 <= j < rest@.len() ==> #[trigger] rest@[j]@ == cvs[n - rest@.len() + j],
        decreases rest@.len(),
    {
        let s = rest.remove(0);
        let c = Certificate::from_status(s);
        vector.push(c);
    }
    proof {
        assert(forall|j: int|
            0 <= j < vector@.len() ==> #[trigger] vector.deep_view()[j] == vector@[j]@);
        assert(vector.deep_view() =~= orig + cvs.map_values(|s: StatusRecordView| cert_of_status(s)));
    }
}

/// The trust record: overall validation state, certificate counts, and the
/// per-certificate detail.
pub struct ValidationData {
    pub state: ValidationState,
    pub certs_count: usize,
    pub certs_valid: usize,
    pub certs: Vec<Certificate>,
}

/// The abstract value of a [`ValidationData`].
pub ghost struct ValidationView {
    pub state: ValidationState,
    pub certs_count: int,
    pub certs_valid: int,
    pub certs: Seq<CertificateView>,
}

impl View for ValidationData {
    type V = ValidationView;

    open spec fn view(&self) -> ValidationView {
        ValidationView {
            state: self.state,
            certs_count: self.certs_count as int,
            certs_valid: self.certs_valid as int,
            certs: self.certs.deep_view(),
        }
    }
}

impl ValidationData {
    /// The record's internal invariant: the valid count never exceeds the
    /// total, and the total is the length of the certificate list.
    pub open spec fn wf(&self) -> bool {
        self@.certs_valid <= self@.certs_count && self@.certs_count == self@.certs.len()
    }

    pub fn new(state: ValidationState, certs_count: usize, certs_valid: usize, certs: Vec<
        Certificate,
    >) -> (r: ValidationData)
        ensures
            r.state == state,
            r.certs_count == certs_count,
            r.certs_valid == certs_valid,
            r.certs == certs,
    {
        ValidationData { state, certs_count, certs_valid, certs }
    }

    /// Normalize a raw validation result. Without an active manifest the
    /// record holds no certificates at all; the overall state is kept either
    /// way.
    pub fn from_result(result: ValidationOutcome) -> (r: ValidationData)
        ensures
            r.wf(),
            r.state == result.state,
            match result.active_manifest {
                Some(codes) => r@.certs == certs_of_buckets(codes@) && r@.certs_count
                    == r@.certs.len() && r@.certs_valid == codes@.success.len(),
                None => r@.certs_count == 0 && r@.certs_valid == 0 && r@.certs.len() == 0,
            },
    {
        let state = result.state;
        let (certs, certs_count, certs_valid) = match result.active_manifest {
            Some(codes) => Certificate::vec_from_codes(codes),
            None => (Vec::new(), 0, 0),
        };
        ValidationData::new(state, certs_count, certs_valid, certs)
    }
}

} // verus!
