//! Plans that are due for claim: when a plan's distribution falls due, and
//! which of the plans read from the store are due and not yet claimed.
//!
//! Reading the store is the caller's work. A `DueScan` tells the caller
//! which plan's claims to look up next and takes the answer back, so the
//! decisions stay here while the reads happen elsewhere.

use vstd::prelude::*;
use crate::clock::unix_now;
use crate::scan::{begins, row_views, DueScan};
use crate::text::same_text;

verus! {

/// Thirty days, in seconds: the wait of a monthly distribution.
pub const MONTHLY_WAIT_SECS: i64 = 2_592_000;

/// Ninety days, in seconds: the wait of a quarterly distribution.
pub const QUARTERLY_WAIT_SECS: i64 = 7_776_000;

/// 365 days, in seconds: the wait of a yearly distribution.
pub const YEARLY_WAIT_SECS: i64 = 31_536_000;

/// A decimal number: `mantissa` divided by ten to the power `scale`.
#[derive(Clone, Copy, Debug, PartialEq, Eq, Structural)]
pub struct Amount {
    pub mantissa: i128,
    pub scale: u32,
}

/// A point in time: seconds since the Unix epoch, and nanoseconds within
/// the second.
#[derive(Clone, Copy, Debug, PartialEq, Eq, Structural)]
pub struct Timestamp {
    pub secs: i64,
    pub nanos: u32,
}

/// A plan as the store holds it, its amounts still text.
#[derive(Debug, PartialEq, Eq)]
pub struct PlanRow {
    pub id: u128,
    pub user_id: u128,
    pub title: String,
    pub description: Option<String>,
    pub fee: String,
    pub net_amount: String,
    pub status: String,
    pub contract_plan_id: Option<i64>,
    pub distribution_method: Option<String>,
    pub is_active: Option<bool>,
    pub contract_created_at: Option<i64>,
    pub created_at: Timestamp,
    pub updated_at: Timestamp,
}

/// A plan that may be claimed.
#[derive(Debug, PartialEq, Eq)]
pub struct DueForClaimPlan {
    pub id: u128,
    pub user_id: u128,
    pub title: String,
    pub description: Option<String>,
    pub fee: Amount,
    pub net_amount: Amount,
    pub status: String,
    pub contract_plan_id: Option<i64>,
    pub distribution_method: Option<String>,
    pub is_active: Option<bool>,
    pub contract_created_at: Option<i64>,
    pub created_at: Timestamp,
    pub updated_at: Timestamp,
}

/// Why a row is no plan: one of its amounts is not a decimal number. Each
/// variant carries what the parser said.
#[derive(Debug, PartialEq, Eq)]
pub enum PlanError {
    Fee(String),
    NetAmount(String),
}

/// What a `PlanRow` is.
pub struct PlanRowView {
    pub id: u128,
    pub user_id: u128,
    pub title: Seq<char>,
    pub description: Option<Seq<char>>,
    pub fee: Seq<char>,
    pub net_amount: Seq<char>,
    pub status: Seq<char>,
    pub contract_plan_id: Option<i64>,
    pub distribution_method: Option<Seq<char>>,
    pub is_active: Option<bool>,
    pub contract_created_at: Option<i64>,
    pub created_at: Timestamp,
    pub updated_at: Timestamp,
}

/// What a `DueForClaimPlan` is.
pub struct PlanView {
    pub id: u128,
    pub user_id: u128,
    pub title: Seq<char>,
    pub description: Option<Seq<char>>,
    pub fee: Amount,
    pub net_amount: Amount,
    pub status: Seq<char>,
    pub contract_plan_id: Option<i64>,
    pub distribution_method: Option<Seq<char>>,
    pub is_active: Option<bool>,
    pub contract_created_at: Option<i64>,
    pub created_at: Timestamp,
    pub updated_at: Timestamp,
}

/// What a `PlanError` is.
pub enum PlanErrorView {
    Fee(Seq<char>),
    NetAmount(Seq<char>),
}

/// An optional text, by its characters.
pub open spec fn text_of(text: Option<String>) -> Option<Seq<char>> {
    match text {
        Some(t) => Some(t@),
        None => None,
    }
}

/// An optional string slice, by its characters.
pub open spec fn slice_text_of(text: Option<&str>) -> Option<Seq<char>> {
    match text {
        Some(t) => Some(t@),
        None => None,
    }
}

impl View for PlanRow {
    type V = PlanRowView;

    open spec fn view(&self) -> PlanRowView {
        PlanRowView {
            id: self.id,
            user_id: self.user_id,
            title: self.title@,
            description: text_of(self.description),
            fee: self.fee@,
            net_amount: self.net_amount@,
            status: self.status@,
            contract_plan_id: self.contract_plan_id,
            distribution_method: text_of(self.distribution_method),
            is_active: self.is_active,
            contract_created_at: self.contract_created_at,
            created_at: self.created_at,
            updated_at: self.updated_at,
        }
    }
}

impl View for DueForClaimPlan {
    type V = PlanView;

    open spec fn view(&self) -> PlanView {
        PlanView {
            id: self.id,
            user_id: self.user_id,
            title: self.title@,
            description: text_of(self.description),
            fee: self.fee,
            net_amount: self.net_amount,
            status: self.status@,
            contract_plan_id: self.contract_plan_id,
            distribution_method: text_of(self.distribution_method),
            is_active: self.is_active,
            contract_created_at: self.contract_created_at,
            created_at: self.created_at,
            updated_at: self.updated_at,
        }
    }
}

impl View for PlanError {
    type V = PlanErrorView;

    open spec fn view(&self) -> PlanErrorView {
        match self {
            PlanError::Fee(said) => PlanErrorView::Fee(said@),
            PlanError::NetAmount(said) => PlanErrorView::NetAmount(said@),
        }
    }
}

/// What `rust_decimal` reads from a text: the number's mantissa and scale,
/// or the message of its error.
pub uninterp spec fn decimal_reading(text: Seq<char>) -> Result<(i128, u32), Seq<char>>;

/// Parses a decimal number with `rust_decimal::Decimal::from_str`.
///
/// Trusted: the parse depends on the text alone; its result is given the
/// name `decimal_reading`, a number by `Decimal::mantissa` and
/// `Decimal::scale`, an error by the text that it displays.
#[verifier::external_body]
fn parse_decimal(text: &str) -> (parsed: Result<Amount, String>)
    ensures
        match parsed {
            Ok(amount) => decimal_reading(text@) == Ok::<(i128, u32), Seq<char>>(
                (amount.mantissa, amount.scale),
            ),
            Err(said) => decimal_reading(text@) == Err::<(i128, u32), Seq<char>>(said@),
        },
{
    match text.parse::<rust_decimal::Decimal>() {
        Ok(number) => Ok(Amount { mantissa: number.mantissa(), scale: number.scale() }),
        Err(error) => Err(error.to_string()),
    }
}

/// A reading as an amount.
pub open spec fn amount_of(reading: Result<(i128, u32), Seq<char>>) -> Result<Amount, Seq<char>> {
    match reading {
        Ok((mantissa, scale)) => Ok(Amount { mantissa, scale }),
        Err(said) => Err(said),
    }
}

/// A parse's result with the error taken by its characters.
pub open spec fn parsed_view(parsed: Result<Amount, String>) -> Result<Amount, Seq<char>> {
    match parsed {
        Ok(amount) => Ok(amount),
        Err(said) => Err(said@),
    }
}

/// The plan that a row and the readings of its two amounts make: the row's
/// fields with the amounts in place of their texts, or the first amount
/// that failed to parse, the fee before the net amount.
pub open spec fn assembled(row: PlanRowView, fee: Result<Amount, Seq<char>>, net_amount: Result<
    Amount,
    Seq<char>,
>) -> Result<PlanView, PlanErrorView> {
    match fee {
        Err(said) => Err(PlanErrorView::Fee(said)),
        Ok(fee) => match net_amount {
            Err(said) => Err(PlanErrorView::NetAmount(said)),
            Ok(net_amount) => Ok(
                PlanView {
                    id: row.id,
                    user_id: row.user_id,
                    title: row.title,
                    description: row.description,
                    fee,
                    net_amount,
                    status: row.status,
                    contract_plan_id: row.contract_plan_id,
                    distribution_method: row.distribution_method,
                    is_active: row.is_active,
                    contract_created_at: row.contract_created_at,
                    created_at: row.created_at,
                    updated_at: row.updated_at,
                },
            ),
        },
    }
}

/// The plan that a row stands for.
pub open spec fn plan_of(row: PlanRowView) -> Result<PlanView, PlanErrorView> {
    assembled(row, amount_of(decimal_reading(row.fee)), amount_of(decimal_reading(row.net_amount)))
}

/// A conversion's result by its views.
pub open spec fn plan_outcome_view(outcome: Result<DueForClaimPlan, PlanError>) -> Result<
    PlanView,
    PlanErrorView,
> {
    match outcome {
        Ok(plan) => Ok(plan@),
        Err(error) => Err(error@),
    }
}

/// Whether a distribution by `method`, for a contract created at
/// `created_at`, is due at time `now`: a lump sum at once, a monthly,
/// quarterly or yearly one after its wait has elapsed, anything else never.
/// The elapsed time is the exact difference of the two times.
pub open spec fn due_at(method: Option<Seq<char>>, created_at: Option<i64>, now: i64) -> bool {
    match (method, created_at) {
        (Some(method), Some(created_at)) => {
            let elapsed = now - created_at;
            if method == "LumpSum"@ {
                true
            } else if method == "Monthly"@ {
                elapsed >= MONTHLY_WAIT_SECS
            } else if method == "Quarterly"@ {
                elapsed >= QUARTERLY_WAIT_SECS
            } else if method == "Yearly"@ {
                elapsed >= YEARLY_WAIT_SECS
            } else {
                false
            }
        },
        _ => false,
    }
}

/// Whether a plan is due at time `now`.
pub open spec fn plan_due_at(plan: PlanView, now: i64) -> bool {
    due_at(plan.distribution_method, plan.contract_created_at, now)
}

fn copy_text(text: &Option<String>) -> (copy: Option<String>)
    ensures
        text_of(copy) == text_of(*text),
{
    match text {
        Some(t) => Some(t.clone()),
        None => None,
    }
}

impl PlanError {
    /// The error as a sentence: which amount failed, and what the parser
    /// said.
    pub fn message(&self) -> (sentence: String)
        ensures
            sentence@ == match self@ {
                PlanErrorView::Fee(said) => "Failed to parse fee: "@ + said,
                PlanErrorView::NetAmount(said) => "Failed to parse net_amount: "@ + said,
            },
    {
        match self {
            PlanError::Fee(said) => "Failed to parse fee: ".to_owned().concat(said.as_str()),
            PlanError::NetAmount(said) => "Failed to parse net_amount: ".to_owned().concat(said.as_str()),
        }
    }
}

impl DueForClaimPlan {
    /// Builds the plan from a row and the parsed amounts; reports the first
    /// amount that failed, the fee before the net amount.
    pub fn assemble(row: &PlanRow, fee: Result<Amount, String>, net_amount: Result<Amount, String>) -> (outcome:
        Result<DueForClaimPlan, PlanError>)
        ensures
            plan_outcome_view(outcome) == assembled(row@, parsed_view(fee), parsed_view(net_amount)),
    {
        let fee = match fee {
            Ok(fee) => fee,
            Err(said) => {
                return Err(PlanError::Fee(said));
            },
        };
        let net_amount = match net_amount {
            Ok(net_amount) => net_amount,
            Err(said) => {
                return Err(PlanError::NetAmount(said));
            },
        };
        Ok(
            DueForClaimPlan {
                id: row.id,
                user_id: row.user_id,
                title: row.title.clone(),
                description: copy_text(&row.description),
                fee,
                net_amount,
                status: row.status.clone(),
                contract_plan_id: row.contract_plan_id,
                distribution_method: copy_text(&row.distribution_method),
                is_active: row.is_active,
                contract_created_at: row.contract_created_at,
                created_at: row.created_at,
                updated_at: row.updated_at,
            },
        )
    }

    /// Converts a row: parses its two amounts and builds the plan.
    pub fn from_row(row: &PlanRow) -> (outcome: Result<DueForClaimPlan, PlanError>)
        ensures
            plan_outcome_view(outcome) == plan_of(row@),
    {
        let fee = parse_decimal(row.fee.as_str());
        let net_amount = parse_decimal(row.net_amount.as_str());
        DueForClaimPlan::assemble(row, fee, net_amount)
    }

    /// A copy of the plan.
    pub fn duplicate(&self) -> (copy: DueForClaimPlan)
        ensures
            copy@ == self@,
    {
        DueForClaimPlan {
            id: self.id,
            user_id: self.user_id,
            title: self.title.clone(),
            description: copy_text(&self.description),
            fee: self.fee,
            net_amount: self.net_amount,
            status: self.status.clone(),
            contract_plan_id: self.contract_plan_id,
            distribution_method: copy_text(&self.distribution_method),
            is_active: self.is_active,
            contract_created_at: self.contract_created_at,
            created_at: self.created_at,
            updated_at: self.updated_at,
        }
    }
}

/// The rules on plans that are due for claim.
pub struct PlanService;

impl PlanService {
    /// Whether a distribution is due at time `now`. Without a method or a
    /// creation time it is not.
    pub fn is_due_for_claim_at(
        distribution_method: Option<&str>,
        contract_created_at: Option<i64>,
        now: i64,
    ) -> (due: bool)
        ensures
            due == due_at(slice_text_of(distribution_method), contract_created_at, now),
    {
        let method = match distribution_method {
            Some(method) => method,
            None => {
                return false;
            },
        };
        let created_at = match contract_created_at {
            Some(created_at) => created_at,
            None => {
                return false;
            },
        };
        let elapsed: i128 = now as i128 - created_at as i128;
        if same_text(method, "LumpSum") {
            true
        } else if same_text(method, "Monthly") {
            elapsed >= MONTHLY_WAIT_SECS as i128
        } else if same_text(method, "Quarterly") {
            elapsed >= QUARTERLY_WAIT_SECS as i128
        } else if same_text(method, "Yearly") {
            elapsed >= YEARLY_WAIT_SECS as i128
        } else {
            false
        }
    }

    /// Whether a distribution is due at the time that the system clock
    /// shows.
    pub fn is_due_for_claim(distribution_method: Option<&str>, contract_created_at: Option<i64>) -> (due:
        bool)
        ensures
            exists|now: i64|
                #![trigger due_at(slice_text_of(distribution_method), contract_created_at, now)]
                due == due_at(slice_text_of(distribution_method), contract_created_at, now),
    {
        let now = unix_now();
        PlanService::is_due_for_claim_at(distribution_method, contract_created_at, now)
    }

    /// Starts the scan that decides whether one plan is due for claim.
    /// `row` is what the store holds for the plan's id and its user among
    /// the plans that are active and neither claimed nor deactivated, if it
    /// holds any. The scan's first kept plan is the answer.
    pub fn get_due_for_claim_plan_by_id(row: Option<PlanRow>) -> (outcome: Result<DueScan, PlanError>)
        ensures
            begins(
                match row {
                    Some(row) => seq![row@],
                    None => Seq::empty(),
                },
                outcome,
            ),
    {
        let mut rows: Vec<PlanRow> = Vec::new();
        match row {
            Some(row) => {
                rows.push(row);
                assert(row_views(rows@) =~= seq![row@]);
            },
            None => {
                assert(row_views(rows@) =~= Seq::<PlanRowView>::empty());
            },
        }
        DueScan::begin(&rows)
    }

    /// Starts the scan over one user's plans. `rows` are the user's plans
    /// that are active and neither claimed nor deactivated, newest first.
    /// The plans that the scan keeps are the user's plans due for claim.
    pub fn get_all_due_for_claim_plans_for_user(rows: &Vec<PlanRow>) -> (outcome: Result<
        DueScan,
        PlanError,
    >)
        ensures
            begins(row_views(rows@), outcome),
    {
        DueScan::begin(rows)
    }

    /// Starts the scan over every user's plans. `rows` are all plans that
    /// are active and neither claimed nor deactivated, newest first. The
    /// plans that the scan keeps are all plans due for claim.
    pub fn get_all_due_for_claim_plans_admin(rows: &Vec<PlanRow>) -> (outcome: Result<DueScan, PlanError>)
        ensures
            begins(row_views(rows@), outcome),
    {
        DueScan::begin(rows)
    }
}

} // verus!
