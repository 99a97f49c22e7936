//! The license check: an ordered chain of endpoints, queried one at a time
//! until one of them gives a decisive answer.

use vstd::prelude::*;

verus! {

pub const KOMOREBI_WINDOWS_URL: &'static str = "https://kw-icul.lgug2z.com";

pub const KOMOREBI_MAC_URL: &'static str = "https://km-icul.lgug2z.com";

/// What one endpoint reports for an email.
#[derive(PartialEq, Eq, Structural, Clone, Copy, Debug)]
pub struct LicenseCheckResponse {
    pub has_valid_subscription: bool,
    pub student: Option<bool>,
}

/// The outcome of a license check.
pub enum LicenseStatus {
    ValidCommercial { platform: String },
    StudentLicense,
    Invalid,
}

/// The abstract outcome of a license check.
pub enum LicenseVerdict {
    Commercial(Seq<char>),
    Student,
    Invalid,
}

impl View for LicenseStatus {
    type V = LicenseVerdict;

    open spec fn view(&self) -> LicenseVerdict {
        match self {
            LicenseStatus::ValidCommercial { platform } => LicenseVerdict::Commercial(platform@),
            LicenseStatus::StudentLicense => LicenseVerdict::Student,
            LicenseStatus::Invalid => LicenseVerdict::Invalid,
        }
    }
}

/// One license-check endpoint and the platform it vouches for.
pub struct LicenseEndpoint {
    pub url: String,
    pub platform: String,
}

/// What the chain does next: ask endpoint `i`, or stop with a status.
pub enum LicenseStep {
    Query(usize),
    Finish(LicenseStatus),
}

pub enum LicenseStepModel {
    Query(int),
    Finish(LicenseVerdict),
}

impl View for LicenseStep {
    type V = LicenseStepModel;

    open spec fn view(&self) -> LicenseStepModel {
        match self {
            LicenseStep::Query(i) => LicenseStepModel::Query(*i as int),
            LicenseStep::Finish(s) => LicenseStepModel::Finish(s@),
        }
    }
}

/// The decision of one endpoint's answer (`None`: the call failed): a valid
/// subscription without a student flag is commercial; any student flag is a
/// student license; anything else decides nothing.
pub open spec fn verdict_of(r: Option<LicenseCheckResponse>, platform: Seq<char>) -> Option<
    LicenseVerdict,
> {
    match r {
        Some(resp) => if resp.has_valid_subscription && resp.student is None {
            Some(LicenseVerdict::Commercial(platform))
        } else if resp.student is Some {
            Some(LicenseVerdict::Student)
        } else {
            None
        },
        None => None,
    }
}

/// The platforms of the endpoints, in order.
pub open spec fn platforms(endpoints: Seq<LicenseEndpoint>) -> Seq<Seq<char>> {
    endpoints.map_values(|e: LicenseEndpoint| e.platform@)
}

/// The first decision among `responses`, the answers of the first endpoints
/// in order.
pub open spec fn first_decision(
    responses: Seq<Option<LicenseCheckResponse>>,
    platforms: Seq<Seq<char>>,
) -> Option<LicenseVerdict>
    decreases responses.len(),
{
    if responses.len() == 0 {
        None
    } else {
        let prev = first_decision(responses.drop_last(), platforms);
        if prev is Some {
            prev
        } else {
            verdict_of(responses.last(), platforms[responses.len() - 1])
        }
    }
}

/// The next step of the chain once `responses` have come in: stop at the
/// first decision, else ask the next endpoint, else the license is invalid.
pub open spec fn next_step(
    endpoints: Seq<LicenseEndpoint>,
    responses: Seq<Option<LicenseCheckResponse>>,
) -> LicenseStepModel {
    match first_decision(responses, platforms(endpoints)) {
        Some(v) => LicenseStepModel::Finish(v),
        None => if responses.len() < endpoints.len() {
            LicenseStepModel::Query(responses.len() as int)
        } else {
            LicenseStepModel::Finish(LicenseVerdict::Invalid)
        },
    }
}

/// The endpoints asked, in order: the Windows build's first, the macOS build's second.
pub fn license_endpoints() -> (r: Vec<LicenseEndpoint>)
    ensures
        r@.len() == 2,
        r@[0].url@ == KOMOREBI_WINDOWS_URL@,
        r@[0].platform@ == "komorebi-windows"@,
        r@[1].url@ == KOMOREBI_MAC_URL@,
        r@[1].platform@ == "komorebi-mac"@,
{
    let mut r: Vec<LicenseEndpoint> = Vec::new();
    r.push(
        LicenseEndpoint {
            url: KOMOREBI_WINDOWS_URL.to_owned(),
            platform: "komorebi-windows".to_owned(),
        },
    );
    r.push(
        LicenseEndpoint { url: KOMOREBI_MAC_URL.to_owned(), platform: "komorebi-mac".to_owned() },
    );
    r
}

/// The decision of one endpoint's answer.
pub fn endpoint_verdict(response: &Option<LicenseCheckResponse>, platform: &String) -> (r: Option<
    LicenseStatus,
>)
    ensures
        r is Some <==> verdict_of(*response, platform@) is Some,
        r is Some ==> Some(r->0@) == verdict_of(*response, platform@),
{
    match response {
        Some(resp) => {
            if resp.has_valid_subscription && resp.student.is_none() {
                Some(LicenseStatus::ValidCommercial { platform: platform.clone() })
            } else if resp.student.is_some() {
                Some(LicenseStatus::StudentLicense)
            } else {
                None
            }
        },
        None => None,
    }
}

fn first_verdict(endpoints: &Vec<LicenseEndpoint>, responses: &Vec<Option<LicenseCheckResponse>>) -> (r:
    Option<LicenseStatus>)
    requires
        responses@.len() <= endpoints@.len(),
    ensures
        r is Some <==> first_decision(responses@, platforms(endpoints@)) is Some,
        r is Some ==> Some(r->0@) == first_decision(responses@, platforms(endpoints@)),
{
    let ghost ps = platforms(endpoints@);
    let mut i: usize = 0;
    while i < responses.len()
        invariant
            i <= responses@.len() <= endpoints@.len(),
            ps == platforms(endpoints@),
            first_decision(responses@.take(i as int), ps) is None,
        decreases responses@.len() - i,
    {
        let ghost next = responses@.take(i + 1);
        assert(next.drop_last() =~= responses@.take(i as int));
        assert(ps[i as int] == endpoints@[i as int].platform@);
        let v = endpoint_verdict(&responses[i], &endpoints[i].platform);
        if v.is_some() {
            proof {
                lemma_decision_extends(responses@, ps, i as int + 1);
            }
            return v;
        }
        i = i + 1;
    }
    assert(responses@.take(responses@.len() as int) =~= responses@);
    None
}

/// A decision among the first `k` answers stays the decision of all of them.
proof fn lemma_decision_extends(
    responses: Seq<Option<LicenseCheckResponse>>,
    ps: Seq<Seq<char>>,
    k: int,
)
    requires
        0 <= k <= responses.len(),
        first_decision(responses.take(k), ps) is Some,
    ensures
        first_decision(responses, ps) == first_decision(responses.take(k), ps),
    decreases responses.len() - k,
{
    if k < responses.len() {
        let next = responses.take(k + 1);
        assert(next.drop_last() =~= responses.take(k));
        lemma_decision_extends(responses, ps, k + 1);
    } else {
        assert(responses.take(k) =~= responses);
    }
}

/// What the chain does next, once the first `responses.len()` endpoints have
/// answered (`None` for a failed call).
pub fn next_license_step(
    endpoints: &Vec<LicenseEndpoint>,
    responses: &Vec<Option<LicenseCheckResponse>>,
) -> (r: LicenseStep)
    requires
        responses@.len() <= endpoints@.len(),
    ensures
        r@ == next_step(endpoints@, responses@),
{
    match first_verdict(endpoints, responses) {
        Some(s) => LicenseStep::Finish(s),
        None => {
            if responses.len() < endpoints.len() {
                LicenseStep::Query(responses.len())
            } else {
                LicenseStep::Finish(LicenseStatus::Invalid)
            }
        },
    }
}

/// The status that the answers give: the first decision, else `Invalid`.
pub fn validate_license(
    endpoints: &Vec<LicenseEndpoint>,
    responses: &Vec<Option<LicenseCheckResponse>>,
) -> (r: LicenseStatus)
    requires
        responses@.len() <= endpoints@.len(),
    ensures
        r@ == match first_decision(responses@, platforms(endpoints@)) {
            Some(v) => v,
            None => LicenseVerdict::Invalid,
        },
{
    match first_verdict(endpoints, responses) {
        Some(s) => s,
        None => LicenseStatus::Invalid,
    }
}

/// Where the first endpoint reports a valid subscription with no student
/// flag, the chain stops there: no other endpoint is asked, and the status is
/// commercial with the first endpoint's platform.
pub proof fn lemma_commercial_short_circuits(
    endpoints: Seq<LicenseEndpoint>,
    first: LicenseCheckResponse,
)
    requires
        endpoints.len() >= 1,
        first.has_valid_subscription,
        first.student is None,
    ensures
        next_step(endpoints, seq![Some(first)]) == LicenseStepModel::Finish(
            LicenseVerdict::Commercial(endpoints[0].platform@),
        ),
{
    let rs = seq![Some(first)];
    assert(rs.drop_last() =~= Seq::<Option<LicenseCheckResponse>>::empty());
    let ps = platforms(endpoints);
    assert(ps[0] == endpoints[0].platform@);
    assert(first_decision(rs.drop_last(), ps) is None);
    assert(rs.last() == Some(first));
    assert(first_decision(rs, ps) == Some(LicenseVerdict::Commercial(ps[0])));
}

} // verus!
