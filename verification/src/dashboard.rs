//! The dashboard listing: which page of which folder a request asks for, and how many
//! pages a list fills.
use vstd::prelude::*;
use crate::mime::opt_view;
use crate::text::{chars_of, str_eq, string_from};

verus! {

/// The smallest integer at or above `a / b`.
pub open spec fn ceil_div(a: int, b: int) -> int {
    if b > 0 {
        if a >= 0 {
            (a + b - 1) / b
        } else {
            -((-a) / b)
        }
    } else {
        if -a >= 0 {
            (-a + (-b) - 1) / (-b)
        } else {
            -(a / (-b))
        }
    }
}

pub open spec fn clamp_i64(x: int) -> int {
    if x > i64::MAX {
        i64::MAX as int
    } else if x < i64::MIN {
        i64::MIN as int
    } else {
        x
    }
}

/// How many pages `total_items` fill at `page_size` per page: one page when there are
/// none, otherwise the quotient rounded up (a zero page size counts as infinitely many
/// pages, and results beyond the range of `i64` are capped at its ends, as the float
/// conversion that the count comes from does).
pub open spec fn spec_total_pages(total_items: int, page_size: int) -> int {
    if total_items == 0 {
        1
    } else if page_size == 0 {
        if total_items > 0 {
            i64::MAX as int
        } else {
            i64::MIN as int
        }
    } else {
        clamp_i64(ceil_div(total_items, page_size))
    }
}

/// A nonempty list of `total_items` at `page_size` (both positive) fills the fewest
/// pages that hold it: the pages hold all items, and one page fewer would not.
pub proof fn lemma_total_pages_fit(total_items: int, page_size: int)
    requires
        0 < total_items <= i64::MAX,
        0 < page_size,
    ensures
        spec_total_pages(total_items, page_size) >= 1,
        (spec_total_pages(total_items, page_size) - 1) * page_size < total_items,
        total_items <= spec_total_pages(total_items, page_size) * page_size,
{
    let q = (total_items + page_size - 1) / page_size;
    assert(q * page_size <= total_items + page_size - 1 && total_items + page_size - 1 < q * page_size + page_size)
        by (nonlinear_arith)
        requires
            page_size > 0,
            q == (total_items + page_size - 1) / page_size,
    ;
    assert(1 <= q <= total_items) by (nonlinear_arith)
        requires
            page_size > 0,
            total_items > 0,
            q * page_size <= total_items + page_size - 1,
            total_items + page_size - 1 < q * page_size + page_size,
    ;
    assert((q - 1) * page_size == q * page_size - page_size) by (nonlinear_arith);
    assert(ceil_div(total_items, page_size) == q);
}

fn ceil_div_nonneg(a: u64, b: u64) -> (q: u64)
    requires
        b > 0,
    ensures
        q == (a + b - 1) / (b as int),
{
    let q = a / b;
    if a % b == 0 {
        proof {
            assert((a + b - 1) / (b as int) == q) by (nonlinear_arith)
                requires
                    b > 0,
                    a % b == 0,
                    q == a / b,
            ;
        }
        q
    } else {
        proof {
            assert((a + b - 1) / (b as int) == q + 1) by (nonlinear_arith)
                requires
                    b > 0,
                    a % b != 0,
                    q == a / b,
            ;
            assert(q < a) by (nonlinear_arith)
                requires
                    b > 0,
                    a % b != 0,
                    q == a / b,
            ;
        }
        q + 1
    }
}

fn magnitude(x: i64) -> (m: u64)
    ensures
        m as int == (if x >= 0 { x as int } else { -(x as int) }),
{
    if x >= 0 {
        x as u64
    } else if x == i64::MIN {
        0x8000_0000_0000_0000u64
    } else {
        (-x) as u64
    }
}

/// The number of pages for a list (the page count of the dashboard).
pub fn calculate_total_pages(total_items: i64, page_size: i64) -> (p: i64)
    ensures
        p == spec_total_pages(total_items as int, page_size as int),
{
    if total_items == 0 {
        return 1;
    }
    if page_size == 0 {
        return if total_items > 0 { i64::MAX } else { i64::MIN };
    }
    let a = magnitude(total_items);
    let b = magnitude(page_size);
    let same_sign = (total_items > 0) == (page_size > 0);
    if same_sign {
        let q = ceil_div_nonneg(a, b);
        proof {
            assert(q <= a) by (nonlinear_arith)
                requires
                    b >= 1,
                    q == (a + b - 1) / (b as int),
            ;
        }
        if q > 0x7fff_ffff_ffff_ffffu64 {
            i64::MAX
        } else {
            q as i64
        }
    } else {
        let q = a / b;
        proof {
            assert(q <= a) by (nonlinear_arith)
                requires
                    b >= 1,
                    q == a / b,
            ;
        }
        if q > 0x8000_0000_0000_0000u64 {
            i64::MIN
        } else if q == 0x8000_0000_0000_0000u64 {
            i64::MIN
        } else {
            -(q as i64)
        }
    }
}

/// The request shape of the inbox and sent pages.
pub struct PaginationParams {
    pub page: Option<i64>,
    pub alias: Option<String>,
    pub q: Option<String>,
    pub folder: Option<String>,
}

/// What the dashboard lists for a request.
pub struct DashboardQuery {
    /// The page shown, counted from 1.
    pub page: i64,
    pub page_size: i64,
    /// How many entries precede the page.
    pub offset: i64,
    pub alias_filter: Option<String>,
    pub query_filter: Option<String>,
    pub folder: String,
    /// For the sent and drafts folders: which messages they hold.
    pub sent_status: Option<EmailStatus>,
}

pub open spec fn nonempty(o: Option<Seq<char>>) -> Option<Seq<char>> {
    match o {
        Some(s) => if s.len() > 0 {
            Some(s)
        } else {
            None
        },
        None => None,
    }
}

fn nonempty_copy(o: &Option<String>) -> (r: Option<String>)
    ensures
        opt_view(r) == nonempty(opt_view(*o)),
{
    match o {
        Some(s) => {
            if s.as_str().is_empty() {
                None
            } else {
                Some(string_from(&chars_of(s.as_str())))
            }
        },
        None => None,
    }
}

/// The listing a dashboard request asks for: page at least 1, ten entries per page,
/// empty filters dropped, folder `inbox` by default; `sent` and `drafts` list sent
/// messages of that status.
pub fn dashboard_query(params: &PaginationParams) -> (d: DashboardQuery)
    ensures
        d.page == (match params.page {
            Some(p) => if p >= 1 { p } else { 1 },
            None => 1,
        }),
        d.page_size == 10,
        d.offset == ((d.page - 1) as i64).wrapping_mul(10),
        opt_view(d.alias_filter) == nonempty(opt_view(params.alias)),
        opt_view(d.query_filter) == nonempty(opt_view(params.q)),
        d.folder@ == crate::config::value_or(opt_view(params.folder), "inbox"@),
        d.folder@ == "drafts"@ ==> d.sent_status == Some(EmailStatus::Draft),
        d.folder@ == "sent"@ ==> d.sent_status == Some(EmailStatus::Sent),
        d.folder@ != "drafts"@ && d.folder@ != "sent"@ ==> d.sent_status is None,
{
    let page = match params.page {
        Some(p) => if p >= 1 { p } else { 1 },
        None => 1,
    };
    let offset = (page - 1).wrapping_mul(10);
    let folder = crate::config::config_or(&params.folder, "inbox");
    proof {
        reveal_strlit("drafts");
        reveal_strlit("sent");
        assert("sent"@.len() != "drafts"@.len());
    }
    let sent_status = if str_eq(folder.as_str(), "drafts") {
        Some(EmailStatus::Draft)
    } else if str_eq(folder.as_str(), "sent") {
        Some(EmailStatus::Sent)
    } else {
        None
    };
    DashboardQuery {
        page,
        page_size: 10,
        offset,
        alias_filter: nonempty_copy(&params.alias),
        query_filter: nonempty_copy(&params.q),
        folder,
        sent_status,
    }
}

/// The delivery state of a message composed in the portal.
#[derive(Debug, Clone, Copy, PartialEq, Eq, Structural)]
pub enum EmailStatus {
    Draft,
    Sending,
    Sent,
    Failed,
}

impl EmailStatus {
    /// The status as shown: `Draft`, `Sending`, `Sent`, `Failed`.
    pub fn display_name(&self) -> (s: &'static str)
        ensures
            s@ == match *self {
                EmailStatus::Draft => "Draft"@,
                EmailStatus::Sending => "Sending"@,
                EmailStatus::Sent => "Sent"@,
                EmailStatus::Failed => "Failed"@,
            },
    {
        match self {
            EmailStatus::Draft => "Draft",
            EmailStatus::Sending => "Sending",
            EmailStatus::Sent => "Sent",
            EmailStatus::Failed => "Failed",
        }
    }

    /// The status as the database stores it: the lowercase name.
    pub fn db_name(&self) -> (s: &'static str)
        ensures
            s@ == match *self {
                EmailStatus::Draft => "draft"@,
                EmailStatus::Sending => "sending"@,
                EmailStatus::Sent => "sent"@,
                EmailStatus::Failed => "failed"@,
            },
    {
        match self {
            EmailStatus::Draft => "draft",
            EmailStatus::Sending => "sending",
            EmailStatus::Sent => "sent",
            EmailStatus::Failed => "failed",
        }
    }

    /// The status a stored name stands for.
    pub fn from_db_name(name: &str) -> (r: Option<EmailStatus>)
        ensures
            r matches Some(st) ==> name@ == st.db_name_text(),
            r is None ==> forall|st: EmailStatus| name@ != #[trigger] st.db_name_text(),
    {
        if str_eq(name, "draft") {
            Some(EmailStatus::Draft)
        } else if str_eq(name, "sending") {
            Some(EmailStatus::Sending)
        } else if str_eq(name, "sent") {
            Some(EmailStatus::Sent)
        } else if str_eq(name, "failed") {
            Some(EmailStatus::Failed)
        } else {
            proof {
                assert forall|st: EmailStatus| name@ != #[trigger] st.db_name_text() by {
                    match st {
                        EmailStatus::Draft => {},
                        EmailStatus::Sending => {},
                        EmailStatus::Sent => {},
                        EmailStatus::Failed => {},
                    }
                }
            }
            None
        }
    }

    pub open spec fn db_name_text(self) -> Seq<char> {
        match self {
            EmailStatus::Draft => "draft"@,
            EmailStatus::Sending => "sending"@,
            EmailStatus::Sent => "sent"@,
            EmailStatus::Failed => "failed"@,
        }
    }
}

} // verus!
