//! Sponsorship records, their classification into tier buckets, and the
//! cursor-paginated fetch of all records, driven one page at a time.

use vstd::prelude::*;

verus! {

/// The paginated query that lists every sponsorship of the authenticated maintainer.
pub const SPONSORS_QUERY: &'static str = "
query($cursor: String) {
  viewer {
    sponsorshipsAsMaintainer(first: 100, includePrivate: true, activeOnly: false, after: $cursor) {
      pageInfo {
        hasNextPage
        endCursor
      }
      nodes {
        createdAt
        tier {
          monthlyPriceInDollars
          isOneTime
        }
        sponsorEntity {
          ... on User {
            login
          }
          ... on Organization {
            login
          }
        }
        isActive
      }
    }
  }
}
";

/// Paging state of one page of the query.
pub struct PageInfo {
    pub has_next_page: bool,
    pub end_cursor: Option<String>,
}

/// The user or organization behind a sponsorship.
pub struct SponsorEntity {
    pub login: String,
}

/// The tier of a sponsorship: its price in whole dollars and whether it is one-time.
pub struct Tier {
    pub monthly_price_in_dollars: i32,
    pub is_one_time: bool,
}

/// One sponsorship record as the upstream service reports it.
pub struct Sponsorship {
    pub tier: Tier,
    pub sponsor_entity: SponsorEntity,
    pub is_active: bool,
}

/// One page of sponsorship records.
pub struct SponsorshipConnection {
    pub page_info: PageInfo,
    pub nodes: Vec<Sponsorship>,
}

pub struct Viewer {
    pub sponsorships_as_maintainer: SponsorshipConnection,
}

pub struct Data {
    pub viewer: Viewer,
}

/// The body of a response to the query.
pub struct GraphQLResponse {
    pub data: Data,
}

/// A request for one page: the query text and the cursor to resume after.
pub struct GraphQLRequest {
    pub query: String,
    pub cursor: Option<String>,
}

/// The tier that a username resolves to.
#[derive(PartialEq, Eq, Structural, Clone, Copy, Debug)]
pub enum SponsorLevel {
    OneDollar,
    FiveDollar,
    TenDollar,
    TwentyDollar,
    OneTime,
    Alumni,
    Unrecognized,
}

pub open spec fn level_name(l: SponsorLevel) -> Seq<char> {
    match l {
        SponsorLevel::OneDollar => "OneDollar"@,
        SponsorLevel::FiveDollar => "FiveDollar"@,
        SponsorLevel::TenDollar => "TenDollar"@,
        SponsorLevel::TwentyDollar => "TwentyDollar"@,
        SponsorLevel::OneTime => "OneTime"@,
        SponsorLevel::Alumni => "Alumni"@,
        SponsorLevel::Unrecognized => "None"@,
    }
}

impl SponsorLevel {
    /// The level's name, as shown to operators.
    pub fn name(&self) -> (r: String)
        ensures
            r@ == level_name(*self),
    {
        match self {
            SponsorLevel::OneDollar => "OneDollar".to_owned(),
            SponsorLevel::FiveDollar => "FiveDollar".to_owned(),
            SponsorLevel::TenDollar => "TenDollar".to_owned(),
            SponsorLevel::TwentyDollar => "TwentyDollar".to_owned(),
            SponsorLevel::OneTime => "OneTime".to_owned(),
            SponsorLevel::Alumni => "Alumni".to_owned(),
            SponsorLevel::Unrecognized => "None".to_owned(),
        }
    }
}

/// The six buckets that a classified record can land in.
#[derive(PartialEq, Eq, Structural, Clone, Copy, Debug)]
pub enum TierBucket {
    OneDollarMonthly,
    FiveDollarMonthly,
    TenDollarMonthly,
    TwentyDollarMonthly,
    CurrentOneTime,
    PreviousSponsor,
}

/// A classified sponsor: login and amount in whole dollars.
pub struct SponsorInfo {
    pub login: String,
    pub amount: i32,
}

/// The classified sponsors, one ordered list per bucket.
pub struct SponsorLists {
    pub one_dollar_monthly: Vec<SponsorInfo>,
    pub five_dollar_monthly: Vec<SponsorInfo>,
    pub ten_dollar_monthly: Vec<SponsorInfo>,
    pub twenty_dollar_monthly: Vec<SponsorInfo>,
    pub current_one_time: Vec<SponsorInfo>,
    pub previous_sponsors: Vec<SponsorInfo>,
}

/// The bucket of a record: inactive records are previous sponsors whatever
/// their tier; active one-time records are current one-time sponsors; active
/// monthly records go by amount, and an amount other than 1, 5, 10 or 20 has
/// no bucket.
pub open spec fn bucket_of(s: Sponsorship) -> Option<TierBucket> {
    if !s.is_active {
        Some(TierBucket::PreviousSponsor)
    } else if s.tier.is_one_time {
        Some(TierBucket::CurrentOneTime)
    } else if s.tier.monthly_price_in_dollars == 1 {
        Some(TierBucket::OneDollarMonthly)
    } else if s.tier.monthly_price_in_dollars == 5 {
        Some(TierBucket::FiveDollarMonthly)
    } else if s.tier.monthly_price_in_dollars == 10 {
        Some(TierBucket::TenDollarMonthly)
    } else if s.tier.monthly_price_in_dollars == 20 {
        Some(TierBucket::TwentyDollarMonthly)
    } else {
        None
    }
}

pub open spec fn info_of(s: Sponsorship) -> SponsorInfo {
    SponsorInfo { login: s.sponsor_entity.login, amount: s.tier.monthly_price_in_dollars }
}

/// What bucket `b` holds after classifying `records`, in input order.
pub open spec fn classified(records: Seq<Sponsorship>, b: TierBucket) -> Seq<SponsorInfo>
    decreases records.len(),
{
    if records.len() == 0 {
        Seq::empty()
    } else {
        let prev = classified(records.drop_last(), b);
        if bucket_of(records.last()) == Some(b) {
            prev.push(info_of(records.last()))
        } else {
            prev
        }
    }
}

/// How many of `records` have no bucket.
pub open spec fn dropped_count(records: Seq<Sponsorship>) -> nat
    decreases records.len(),
{
    if records.len() == 0 {
        0
    } else {
        dropped_count(records.drop_last()) + if bucket_of(records.last()) is None {
            1nat
        } else {
            0nat
        }
    }
}

pub open spec fn holds_login(s: Seq<SponsorInfo>, user: Seq<char>) -> bool {
    exists|i: int| 0 <= i < s.len() && (#[trigger] s[i]).login@ == user
}

/// Bucket `b` of the lists.
pub open spec fn bucket_seq(l: SponsorLists, b: TierBucket) -> Seq<SponsorInfo> {
    match b {
        TierBucket::OneDollarMonthly => l.one_dollar_monthly@,
        TierBucket::FiveDollarMonthly => l.five_dollar_monthly@,
        TierBucket::TenDollarMonthly => l.ten_dollar_monthly@,
        TierBucket::TwentyDollarMonthly => l.twenty_dollar_monthly@,
        TierBucket::CurrentOneTime => l.current_one_time@,
        TierBucket::PreviousSponsor => l.previous_sponsors@,
    }
}

/// The level of `user`: the first bucket holding the login, in the order
/// one, five, ten, twenty dollars monthly, previous sponsors, current one-time.
pub open spec fn level_of(l: SponsorLists, user: Seq<char>) -> SponsorLevel {
    if holds_login(l.one_dollar_monthly@, user) {
        SponsorLevel::OneDollar
    } else if holds_login(l.five_dollar_monthly@, user) {
        SponsorLevel::FiveDollar
    } else if holds_login(l.ten_dollar_monthly@, user) {
        SponsorLevel::TenDollar
    } else if holds_login(l.twenty_dollar_monthly@, user) {
        SponsorLevel::TwentyDollar
    } else if holds_login(l.previous_sponsors@, user) {
        SponsorLevel::Alumni
    } else if holds_login(l.current_one_time@, user) {
        SponsorLevel::OneTime
    } else {
        SponsorLevel::Unrecognized
    }
}

pub open spec fn active_count(l: SponsorLists) -> nat {
    l.one_dollar_monthly@.len() + l.five_dollar_monthly@.len() + l.ten_dollar_monthly@.len()
        + l.twenty_dollar_monthly@.len() + l.current_one_time@.len()
}

impl SponsorLists {
    /// The lists hold exactly what classifying `records` gives.
    pub open spec fn classifies(self, records: Seq<Sponsorship>) -> bool {
        forall|b: TierBucket| #[trigger] bucket_seq(self, b) == classified(records, b)
    }

    /// Lists with every bucket empty.
    pub fn new() -> (r: SponsorLists)
        ensures
            r.classifies(Seq::empty()),
    {
        SponsorLists {
            one_dollar_monthly: Vec::new(),
            five_dollar_monthly: Vec::new(),
            ten_dollar_monthly: Vec::new(),
            twenty_dollar_monthly: Vec::new(),
            current_one_time: Vec::new(),
            previous_sponsors: Vec::new(),
        }
    }

    /// Bucket `b`.
    pub fn bucket(&self, b: TierBucket) -> (r: &Vec<SponsorInfo>)
        ensures
            r@ == bucket_seq(*self, b),
    {
        match b {
            TierBucket::OneDollarMonthly => &self.one_dollar_monthly,
            TierBucket::FiveDollarMonthly => &self.five_dollar_monthly,
            TierBucket::TenDollarMonthly => &self.ten_dollar_monthly,
            TierBucket::TwentyDollarMonthly => &self.twenty_dollar_monthly,
            TierBucket::CurrentOneTime => &self.current_one_time,
            TierBucket::PreviousSponsor => &self.previous_sponsors,
        }
    }

    fn push_to(&mut self, b: TierBucket, info: SponsorInfo)
        ensures
            forall|c: TierBucket|
                #[trigger] bucket_seq(*final(self), c) == if c == b {
                    bucket_seq(*old(self), c).push(info)
                } else {
                    bucket_seq(*old(self), c)
                },
    {
        match b {
            TierBucket::OneDollarMonthly => self.one_dollar_monthly.push(info),
            TierBucket::FiveDollarMonthly => self.five_dollar_monthly.push(info),
            TierBucket::TenDollarMonthly => self.ten_dollar_monthly.push(info),
            TierBucket::TwentyDollarMonthly => self.twenty_dollar_monthly.push(info),
            TierBucket::CurrentOneTime => self.current_one_time.push(info),
            TierBucket::PreviousSponsor => self.previous_sponsors.push(info),
        }
    }

    /// The number of current sponsors: every bucket but the previous sponsors.
    pub fn total_active_count(&self) -> (r: usize)
        requires
            active_count(*self) <= usize::MAX,
        ensures
            r == active_count(*self),
    {
        self.one_dollar_monthly.len() + self.five_dollar_monthly.len()
            + self.ten_dollar_monthly.len() + self.twenty_dollar_monthly.len()
            + self.current_one_time.len()
    }

    /// The level of `user`, by the precedence of `level_of`.
    pub fn level_for_user(&self, user: &str) -> (r: SponsorLevel)
        ensures
            r == level_of(*self, user@),
    {
        let user = user.to_owned();
        if has_login(&self.one_dollar_monthly, &user) {
            SponsorLevel::OneDollar
        } else if has_login(&self.five_dollar_monthly, &user) {
            SponsorLevel::FiveDollar
        } else if has_login(&self.ten_dollar_monthly, &user) {
            SponsorLevel::TenDollar
        } else if has_login(&self.twenty_dollar_monthly, &user) {
            SponsorLevel::TwentyDollar
        } else if has_login(&self.previous_sponsors, &user) {
            SponsorLevel::Alumni
        } else if has_login(&self.current_one_time, &user) {
            SponsorLevel::OneTime
        } else {
            SponsorLevel::Unrecognized
        }
    }
}

fn has_login(v: &Vec<SponsorInfo>, user: &String) -> (r: bool)
    ensures
        r == holds_login(v@, user@),
{
    let mut i: usize = 0;
    while i < v.len()
        invariant
            i <= v@.len(),
            forall|j: int| 0 <= j < i ==> (#[trigger] v@[j]).login@ != user@,
        decreases v@.len() - i,
    {
        if v[i].login == *user {
            return true;
        }
        i = i + 1;
    }
    false
}

/// The bucket of one record.
pub fn bucket_for(s: &Sponsorship) -> (r: Option<TierBucket>)
    ensures
        r == bucket_of(*s),
{
    if !s.is_active {
        Some(TierBucket::PreviousSponsor)
    } else if s.tier.is_one_time {
        Some(TierBucket::CurrentOneTime)
    } else {
        match s.tier.monthly_price_in_dollars {
            1 => Some(TierBucket::OneDollarMonthly),
            5 => Some(TierBucket::FiveDollarMonthly),
            10 => Some(TierBucket::TenDollarMonthly),
            20 => Some(TierBucket::TwentyDollarMonthly),
            _ => None,
        }
    }
}

/// Classifies every record into its bucket, keeping input order within each
/// bucket; records without a bucket are left out.
pub fn categorize_sponsors(sponsorships: Vec<Sponsorship>) -> (lists: SponsorLists)
    ensures
        lists.classifies(sponsorships@),
{
    let mut lists = SponsorLists::new();
    let mut i: usize = 0;
    while i < sponsorships.len()
        invariant
            i <= sponsorships@.len(),
            lists.classifies(sponsorships@.subrange(0, i as int)),
        decreases sponsorships@.len() - i,
    {
        let s = &sponsorships[i];
        let ghost done = sponsorships@.subrange(0, i as int);
        let ghost next = sponsorships@.subrange(0, i + 1);
        assert(next.drop_last() =~= done);
        assert(next.last() == sponsorships@[i as int]);
        match bucket_for(s) {
            Some(b) => {
                let info = SponsorInfo { login: s.sponsor_entity.login.clone(), amount: s.tier.monthly_price_in_dollars };
                assert(info == info_of(sponsorships@[i as int]));
                lists.push_to(b, info);
            },
            None => {},
        }
        i = i + 1;
    }
    assert(sponsorships@.subrange(0, sponsorships@.len() as int) =~= sponsorships@);
    lists
}

/// The number of records that classifying `records` puts in bucket `b`.
pub open spec fn placed(records: Seq<Sponsorship>, b: TierBucket) -> nat {
    classified(records, b).len()
}

/// Every record lands in exactly one bucket or is dropped: the six buckets and
/// the dropped records together count each record once.
pub proof fn lemma_each_record_placed_once(records: Seq<Sponsorship>)
    ensures
        placed(records, TierBucket::OneDollarMonthly) + placed(records, TierBucket::FiveDollarMonthly)
            + placed(records, TierBucket::TenDollarMonthly) + placed(
            records,
            TierBucket::TwentyDollarMonthly,
        ) + placed(records, TierBucket::CurrentOneTime) + placed(records, TierBucket::PreviousSponsor)
            + dropped_count(records) == records.len(),
    decreases records.len(),
{
    if records.len() > 0 {
        lemma_each_record_placed_once(records.drop_last());
    }
}

/// Classifying the same records twice gives the same lists.
pub proof fn lemma_classification_deterministic(
    records: Seq<Sponsorship>,
    a: SponsorLists,
    b: SponsorLists,
)
    requires
        a.classifies(records),
        b.classifies(records),
    ensures
        forall|t: TierBucket| #[trigger] bucket_seq(a, t) == bucket_seq(b, t),
{
}

/// A login held by the previous sponsors and the current one-time sponsors,
/// and by no monthly bucket, resolves to `Alumni`.
pub proof fn lemma_alumni_before_one_time(l: SponsorLists, user: Seq<char>)
    requires
        holds_login(l.previous_sponsors@, user),
        holds_login(l.current_one_time@, user),
        !holds_login(l.one_dollar_monthly@, user),
        !holds_login(l.five_dollar_monthly@, user),
        !holds_login(l.ten_dollar_monthly@, user),
        !holds_login(l.twenty_dollar_monthly@, user),
    ensures
        level_of(l, user) == SponsorLevel::Alumni,
{
}

/// The state of a paginated fetch: the records gathered so far, in arrival
/// order, the cursor to resume after, and whether the last page has come.
pub struct SponsorFetch {
    pub sponsors: Vec<Sponsorship>,
    pub cursor: Option<String>,
    pub finished: bool,
}

/// The abstract state of a fetch.
pub struct FetchModel {
    pub sponsors: Seq<Sponsorship>,
    pub cursor: Option<String>,
    pub finished: bool,
}

impl View for SponsorFetch {
    type V = FetchModel;

    open spec fn view(&self) -> FetchModel {
        FetchModel { sponsors: self.sponsors@, cursor: self.cursor, finished: self.finished }
    }
}

pub open spec fn fetch_start() -> FetchModel {
    FetchModel { sponsors: Seq::empty(), cursor: None, finished: false }
}

/// One page received: its records are appended, its cursor kept, and the
/// fetch ends where the page says there is no next one.
pub open spec fn fetch_step(m: FetchModel, page: SponsorshipConnection) -> FetchModel {
    FetchModel {
        sponsors: m.sponsors + page.nodes@,
        cursor: page.page_info.end_cursor,
        finished: !page.page_info.has_next_page,
    }
}

/// The state after answering each request of a fresh fetch with the next of
/// `pages`; pages that come after the fetch ended are not requested.
pub open spec fn fetch_run(pages: Seq<SponsorshipConnection>) -> FetchModel
    decreases pages.len(),
{
    if pages.len() == 0 {
        fetch_start()
    } else {
        let prev = fetch_run(pages.drop_last());
        if prev.finished {
            prev
        } else {
            fetch_step(prev, pages.last())
        }
    }
}

/// The records of all `pages`, in order.
pub open spec fn all_nodes(pages: Seq<SponsorshipConnection>) -> Seq<Sponsorship>
    decreases pages.len(),
{
    if pages.len() == 0 {
        Seq::empty()
    } else {
        all_nodes(pages.drop_last()) + pages.last().nodes@
    }
}

impl SponsorFetch {
    /// A fetch that has received nothing: its first request carries no cursor.
    pub fn new() -> (r: SponsorFetch)
        ensures
            r@ == fetch_start(),
    {
        SponsorFetch { sponsors: Vec::new(), cursor: None, finished: false }
    }

    /// The next page to ask for, or `None` once the last page has come.
    pub fn next_request(&self) -> (r: Option<GraphQLRequest>)
        ensures
            r is Some <==> !self.finished,
            r is Some ==> r->0.cursor == self.cursor && r->0.query@ == SPONSORS_QUERY@,
    {
        if self.finished {
            None
        } else {
            let cursor = match &self.cursor {
                Some(c) => Some(c.clone()),
                None => None,
            };
            Some(GraphQLRequest { query: SPONSORS_QUERY.to_owned(), cursor })
        }
    }

    /// Takes in one page of the response.
    pub fn receive_page(&mut self, page: SponsorshipConnection)
        requires
            !old(self).finished,
        ensures
            final(self)@ == fetch_step(old(self)@, page),
    {
        let SponsorshipConnection { page_info, nodes } = page;
        let mut nodes = nodes;
        self.sponsors.append(&mut nodes);
        self.cursor = page_info.end_cursor;
        self.finished = !page_info.has_next_page;
    }

    /// The records gathered, in arrival order.
    pub fn into_sponsors(self) -> (r: Vec<Sponsorship>)
        ensures
            r@ == self.sponsors@,
    {
        self.sponsors
    }
}

proof fn lemma_fetch_prefix(pages: Seq<SponsorshipConnection>, k: int)
    requires
        0 <= k < pages.len(),
        forall|i: int| 0 <= i < pages.len() - 1 ==> (#[trigger] pages[i]).page_info.has_next_page,
    ensures
        !fetch_run(pages.take(k)).finished,
        fetch_run(pages.take(k)).sponsors == all_nodes(pages.take(k)),
    decreases k,
{
    if k > 0 {
        lemma_fetch_prefix(pages, k - 1);
        assert(pages.take(k).drop_last() =~= pages.take(k - 1));
        assert(pages[k - 1].page_info.has_next_page);
    }
}

/// A fetch answered by `pages`, of which only the last says there is no next
/// page, asks for exactly `pages.len()` pages (a request follows each shorter
/// prefix, none follows the whole) and gathers all their records in order.
pub proof fn lemma_pagination_terminates(pages: Seq<SponsorshipConnection>)
    requires
        pages.len() >= 1,
        forall|i: int| 0 <= i < pages.len() - 1 ==> (#[trigger] pages[i]).page_info.has_next_page,
        !pages.last().page_info.has_next_page,
    ensures
        forall|k: int| 0 <= k < pages.len() ==> !(#[trigger] fetch_run(pages.take(k))).finished,
        fetch_run(pages).finished,
        fetch_run(pages).sponsors == all_nodes(pages),
{
    assert forall|k: int| 0 <= k < pages.len() implies !(#[trigger] fetch_run(pages.take(k))).finished by {
        lemma_fetch_prefix(pages, k);
    }
    let n = pages.len() - 1;
    lemma_fetch_prefix(pages, n);
    assert(pages.drop_last() =~= pages.take(n));
}

} // verus!
