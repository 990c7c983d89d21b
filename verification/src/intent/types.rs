//! Domain types of the intent module: intent kinds and statuses, the
//! execution-engine orders and triggers, per-kind parameters and the intent
//! record itself.
use vstd::prelude::*;
use crate::common::own;

verus! {

/// Type of agent intent.
#[derive(Clone, Copy, Debug, PartialEq, Eq, Hash, Structural)]
pub enum IntentType {
    /// Execute an action when a condition is met.
    Conditional,
    /// Time-weighted average price execution across slices.
    Twap,
    /// Atomic execution of multiple correlated actions.
    MultiLeg,
    /// High-level goal decomposed by the runtime.
    Declarative,
    /// Sealed-bid request-for-quote auction.
    Rfq,
    /// Volume-participation execution.
    Pov,
}

/// The wire number of each `IntentType` variant.
pub open spec fn intent_type_number(v: IntentType) -> i32 {
    match v {
        IntentType::Conditional => 0,
        IntentType::Twap => 1,
        IntentType::MultiLeg => 2,
        IntentType::Declarative => 3,
        IntentType::Rfq => 4,
        IntentType::Pov => 5,
    }
}

/// The `IntentType` that a wire number denotes; unknown numbers give `Conditional`.
pub open spec fn intent_type_of(n: i32) -> IntentType {
    if n == 1 {
        IntentType::Twap
    } else if n == 2 {
        IntentType::MultiLeg
    } else if n == 3 {
        IntentType::Declarative
    } else if n == 4 {
        IntentType::Rfq
    } else if n == 5 {
        IntentType::Pov
    } else {
        IntentType::Conditional
    }
}

impl IntentType {
    /// Converts from the proto `i32` representation; unknown numbers give `Conditional`.
    pub fn from_proto(value: i32) -> (r: IntentType)
        ensures
            r == intent_type_of(value),
    {
            match value {
                1 => IntentType::Twap,
                2 => IntentType::MultiLeg,
                3 => IntentType::Declarative,
                4 => IntentType::Rfq,
                5 => IntentType::Pov,
                _ => IntentType::Conditional,
            }
    }

    /// Converts to the proto `i32` representation.
    pub fn to_proto(self) -> (r: i32)
        ensures
            r == intent_type_number(self),
    {
            match self {
                IntentType::Conditional => 0,
                IntentType::Twap => 1,
                IntentType::MultiLeg => 2,
                IntentType::Declarative => 3,
                IntentType::Rfq => 4,
                IntentType::Pov => 5,
            }
    }

    /// The canonical upper-case name of the variant.
    pub fn to_string(&self) -> (r: String)
        ensures
            r@ == intent_type_name(*self),
    {
        match self {
            IntentType::Conditional => own("CONDITIONAL"),
            IntentType::Twap => own("TWAP"),
            IntentType::MultiLeg => own("MULTI_LEG"),
            IntentType::Declarative => own("DECLARATIVE"),
            IntentType::Rfq => own("RFQ"),
            IntentType::Pov => own("POV"),
        }
    }
}

/// The display name of each `IntentType` variant.
pub open spec fn intent_type_name(v: IntentType) -> Seq<char> {
    match v {
        IntentType::Conditional => "CONDITIONAL"@,
        IntentType::Twap => "TWAP"@,
        IntentType::MultiLeg => "MULTI_LEG"@,
        IntentType::Declarative => "DECLARATIVE"@,
        IntentType::Rfq => "RFQ"@,
        IntentType::Pov => "POV"@,
    }
}

/// The display names of `IntentType`: `Conditional` is "CONDITIONAL", `Twap` is "TWAP", `MultiLeg` is "MULTI_LEG", `Declarative` is "DECLARATIVE", `Rfq` is "RFQ", `Pov` is "POV".
pub proof fn law_intent_type_names()
    ensures
        intent_type_name(IntentType::Conditional) == "CONDITIONAL"@,
        intent_type_name(IntentType::Twap) == "TWAP"@,
        intent_type_name(IntentType::MultiLeg) == "MULTI_LEG"@,
        intent_type_name(IntentType::Declarative) == "DECLARATIVE"@,
        intent_type_name(IntentType::Rfq) == "RFQ"@,
        intent_type_name(IntentType::Pov) == "POV"@,
{
}

impl Default for IntentType {
    /// `Conditional`.
    fn default() -> (r: IntentType)
        ensures
            r == IntentType::Conditional,
    {
        IntentType::Conditional
    }
}

/// Every `IntentType` survives the trip to its wire number and back, and every
/// number in `0..=5` survives the trip to a variant and back; any
/// other number reads as `Conditional`.
pub proof fn lemma_intent_type_roundtrip(v: IntentType, n: i32)
    ensures
        intent_type_of(intent_type_number(v)) == v,
        0 <= n <= 5 ==> intent_type_number(intent_type_of(n)) == n,
        !(0 <= n <= 5) ==> intent_type_of(n) == IntentType::Conditional,
{
}

/// The wire numbers of `IntentType`, both ways: `Conditional` is 0, `Twap` is 1, `MultiLeg` is 2, `Declarative` is 3, `Rfq` is 4, `Pov` is 5; any other number reads
/// as `Conditional`.
pub proof fn law_intent_type_wire_numbers(n: i32)
    ensures
        intent_type_number(IntentType::Conditional) == 0,
        intent_type_number(IntentType::Twap) == 1,
        intent_type_number(IntentType::MultiLeg) == 2,
        intent_type_number(IntentType::Declarative) == 3,
        intent_type_number(IntentType::Rfq) == 4,
        intent_type_number(IntentType::Pov) == 5,
        intent_type_of(0) == IntentType::Conditional,
        intent_type_of(1) == IntentType::Twap,
        intent_type_of(2) == IntentType::MultiLeg,
        intent_type_of(3) == IntentType::Declarative,
        intent_type_of(4) == IntentType::Rfq,
        intent_type_of(5) == IntentType::Pov,
        !(0 <= n <= 5) ==> intent_type_of(n) == IntentType::Conditional,
{
}

/// Lifecycle status of an agent intent.
#[derive(Clone, Copy, Debug, PartialEq, Eq, Hash, Structural)]
pub enum IntentStatus {
    /// Awaiting execution or condition check.
    Pending,
    /// Currently being executed.
    Executing,
    /// Successfully completed.
    Completed,
    /// Execution failed.
    Failed,
    /// Explicitly cancelled by the agent.
    Cancelled,
    /// Past its expiry timestamp.
    Expired,
    /// A sealed bid was accepted; the winning maker's reveal-and-settle is awaited.
    AwaitingReveal,
}

/// The wire number of each `IntentStatus` variant.
pub open spec fn intent_status_number(v: IntentStatus) -> i32 {
    match v {
        IntentStatus::Pending => 0,
        IntentStatus::Executing => 1,
        IntentStatus::Completed => 2,
        IntentStatus::Failed => 3,
        IntentStatus::Cancelled => 4,
        IntentStatus::Expired => 5,
        IntentStatus::AwaitingReveal => 6,
    }
}

/// The `IntentStatus` that a wire number denotes; unknown numbers give `Pending`.
pub open spec fn intent_status_of(n: i32) -> IntentStatus {
    if n == 1 {
        IntentStatus::Executing
    } else if n == 2 {
        IntentStatus::Completed
    } else if n == 3 {
        IntentStatus::Failed
    } else if n == 4 {
        IntentStatus::Cancelled
    } else if n == 5 {
        IntentStatus::Expired
    } else if n == 6 {
        IntentStatus::AwaitingReveal
    } else {
        IntentStatus::Pending
    }
}

impl IntentStatus {
    /// Converts from the proto `i32` representation; unknown numbers give `Pending`.
    pub fn from_proto(value: i32) -> (r: IntentStatus)
        ensures
            r == intent_status_of(value),
    {
            match value {
                1 => IntentStatus::Executing,
                2 => IntentStatus::Completed,
                3 => IntentStatus::Failed,
                4 => IntentStatus::Cancelled,
                5 => IntentStatus::Expired,
                6 => IntentStatus::AwaitingReveal,
                _ => IntentStatus::Pending,
            }
    }

    /// Converts to the proto `i32` representation.
    pub fn to_proto(self) -> (r: i32)
        ensures
            r == intent_status_number(self),
    {
            match self {
                IntentStatus::Pending => 0,
                IntentStatus::Executing => 1,
                IntentStatus::Completed => 2,
                IntentStatus::Failed => 3,
                IntentStatus::Cancelled => 4,
                IntentStatus::Expired => 5,
                IntentStatus::AwaitingReveal => 6,
            }
    }

    /// The canonical upper-case name of the variant.
    pub fn to_string(&self) -> (r: String)
        ensures
            r@ == intent_status_name(*self),
    {
        match self {
            IntentStatus::Pending => own("PENDING"),
            IntentStatus::Executing => own("EXECUTING"),
            IntentStatus::Completed => own("COMPLETED"),
            IntentStatus::Failed => own("FAILED"),
            IntentStatus::Cancelled => own("CANCELLED"),
            IntentStatus::Expired => own("EXPIRED"),
            IntentStatus::AwaitingReveal => own("AWAITING_REVEAL"),
        }
    }
}

/// The display name of each `IntentStatus` variant.
pub open spec fn intent_status_name(v: IntentStatus) -> Seq<char> {
    match v {
        IntentStatus::Pending => "PENDING"@,
        IntentStatus::Executing => "EXECUTING"@,
        IntentStatus::Completed => "COMPLETED"@,
        IntentStatus::Failed => "FAILED"@,
        IntentStatus::Cancelled => "CANCELLED"@,
        IntentStatus::Expired => "EXPIRED"@,
        IntentStatus::AwaitingReveal => "AWAITING_REVEAL"@,
    }
}

/// The display names of `IntentStatus`: `Pending` is "PENDING", `Executing` is "EXECUTING", `Completed` is "COMPLETED", `Failed` is "FAILED", `Cancelled` is "CANCELLED", `Expired` is "EXPIRED", `AwaitingReveal` is "AWAITING_REVEAL".
pub proof fn law_intent_status_names()
    ensures
        intent_status_name(IntentStatus::Pending) == "PENDING"@,
        intent_status_name(IntentStatus::Executing) == "EXECUTING"@,
        intent_status_name(IntentStatus::Completed) == "COMPLETED"@,
        intent_status_name(IntentStatus::Failed) == "FAILED"@,
        intent_status_name(IntentStatus::Cancelled) == "CANCELLED"@,
        intent_status_name(IntentStatus::Expired) == "EXPIRED"@,
        intent_status_name(IntentStatus::AwaitingReveal) == "AWAITING_REVEAL"@,
{
}

impl Default for IntentStatus {
    /// `Pending`.
    fn default() -> (r: IntentStatus)
        ensures
            r == IntentStatus::Pending,
    {
        IntentStatus::Pending
    }
}

/// Every `IntentStatus` survives the trip to its wire number and back, and every
/// number in `0..=6` survives the trip to a variant and back; any
/// other number reads as `Pending`.
pub proof fn lemma_intent_status_roundtrip(v: IntentStatus, n: i32)
    ensures
        intent_status_of(intent_status_number(v)) == v,
        0 <= n <= 6 ==> intent_status_number(intent_status_of(n)) == n,
        !(0 <= n <= 6) ==> intent_status_of(n) == IntentStatus::Pending,
{
}

/// The wire numbers of `IntentStatus`, both ways: `Pending` is 0, `Executing` is 1, `Completed` is 2, `Failed` is 3, `Cancelled` is 4, `Expired` is 5, `AwaitingReveal` is 6; any other number reads
/// as `Pending`.
pub proof fn law_intent_status_wire_numbers(n: i32)
    ensures
        intent_status_number(IntentStatus::Pending) == 0,
        intent_status_number(IntentStatus::Executing) == 1,
        intent_status_number(IntentStatus::Completed) == 2,
        intent_status_number(IntentStatus::Failed) == 3,
        intent_status_number(IntentStatus::Cancelled) == 4,
        intent_status_number(IntentStatus::Expired) == 5,
        intent_status_number(IntentStatus::AwaitingReveal) == 6,
        intent_status_of(0) == IntentStatus::Pending,
        intent_status_of(1) == IntentStatus::Executing,
        intent_status_of(2) == IntentStatus::Completed,
        intent_status_of(3) == IntentStatus::Failed,
        intent_status_of(4) == IntentStatus::Cancelled,
        intent_status_of(5) == IntentStatus::Expired,
        intent_status_of(6) == IntentStatus::AwaitingReveal,
        !(0 <= n <= 6) ==> intent_status_of(n) == IntentStatus::Pending,
{
}

/// A status from which an intent never moves again.
pub open spec fn status_is_terminal(s: IntentStatus) -> bool {
    s is Completed || s is Failed || s is Cancelled || s is Expired
}

/// A status of an intent that is still live.
pub open spec fn status_is_active(s: IntentStatus) -> bool {
    s is Pending || s is Executing || s is AwaitingReveal
}

impl IntentStatus {
    /// `true` for the terminal states: completed, failed, cancelled, expired.
    pub fn is_terminal(self) -> (b: bool)
        ensures
            b == status_is_terminal(self),
    {
        match self {
            IntentStatus::Completed | IntentStatus::Failed | IntentStatus::Cancelled
            | IntentStatus::Expired => true,
            _ => false,
        }
    }

    /// `true` while the intent is pending, executing or awaiting a reveal.
    pub fn is_active(self) -> (b: bool)
        ensures
            b == status_is_active(self),
    {
        match self {
            IntentStatus::Pending | IntentStatus::Executing | IntentStatus::AwaitingReveal => true,
            _ => false,
        }
    }
}

/// No status is both active and terminal, and every status is one of the two.
pub proof fn lemma_status_partition(s: IntentStatus)
    ensures
        status_is_active(s) != status_is_terminal(s),
{
}

/// Order side for an execution-engine order.
#[derive(Clone, Copy, Debug, PartialEq, Eq, Hash, Structural)]
pub enum Side {
    Buy,
    Sell,
}

/// The wire number of each `Side` variant.
pub open spec fn side_number(v: Side) -> i32 {
    match v {
        Side::Buy => 0,
        Side::Sell => 1,
    }
}

/// The `Side` that a wire number denotes; unknown numbers give `Buy`.
pub open spec fn side_of(n: i32) -> Side {
    if n == 1 {
        Side::Sell
    } else {
        Side::Buy
    }
}

impl Side {
    /// Converts from the proto `i32` representation; unknown numbers give `Buy`.
    pub fn from_proto(value: i32) -> (r: Side)
        ensures
            r == side_of(value),
    {
            match value {
                1 => Side::Sell,
                _ => Side::Buy,
            }
    }

    /// Converts to the proto `i32` representation.
    pub fn to_proto(self) -> (r: i32)
        ensures
            r == side_number(self),
    {
            match self {
                Side::Buy => 0,
                Side::Sell => 1,
            }
    }

    /// The canonical upper-case name of the variant.
    pub fn to_string(&self) -> (r: String)
        ensures
            r@ == side_name(*self),
    {
        match self {
            Side::Buy => own("SIDE_BUY"),
            Side::Sell => own("SIDE_SELL"),
        }
    }
}

/// The display name of each `Side` variant.
pub open spec fn side_name(v: Side) -> Seq<char> {
    match v {
        Side::Buy => "SIDE_BUY"@,
        Side::Sell => "SIDE_SELL"@,
    }
}

/// The display names of `Side`: `Buy` is "SIDE_BUY", `Sell` is "SIDE_SELL".
pub proof fn law_side_names()
    ensures
        side_name(Side::Buy) == "SIDE_BUY"@,
        side_name(Side::Sell) == "SIDE_SELL"@,
{
}

impl Default for Side {
    /// `Buy`.
    fn default() -> (r: Side)
        ensures
            r == Side::Buy,
    {
        Side::Buy
    }
}

/// Every `Side` survives the trip to its wire number and back, and every
/// number in `0..=1` survives the trip to a variant and back; any
/// other number reads as `Buy`.
pub proof fn lemma_side_roundtrip(v: Side, n: i32)
    ensures
        side_of(side_number(v)) == v,
        0 <= n <= 1 ==> side_number(side_of(n)) == n,
        !(0 <= n <= 1) ==> side_of(n) == Side::Buy,
{
}

/// The wire numbers of `Side`, both ways: `Buy` is 0, `Sell` is 1; any other number reads
/// as `Buy`.
pub proof fn law_side_wire_numbers(n: i32)
    ensures
        side_number(Side::Buy) == 0,
        side_number(Side::Sell) == 1,
        side_of(0) == Side::Buy,
        side_of(1) == Side::Sell,
        !(0 <= n <= 1) ==> side_of(n) == Side::Buy,
{
}

/// Time-in-force for an execution-engine order. GTC rests as a maker; IOC/FOK
/// are marketable against a crossing limit price.
#[derive(Clone, Copy, Debug, PartialEq, Eq, Hash, Structural)]
pub enum Tif {
    Gtc,
    Ioc,
    Fok,
}

/// The wire number of each `Tif` variant.
pub open spec fn tif_number(v: Tif) -> i32 {
    match v {
        Tif::Gtc => 0,
        Tif::Ioc => 1,
        Tif::Fok => 2,
    }
}

/// The `Tif` that a wire number denotes; unknown numbers give `Gtc`.
pub open spec fn tif_of(n: i32) -> Tif {
    if n == 1 {
        Tif::Ioc
    } else if n == 2 {
        Tif::Fok
    } else {
        Tif::Gtc
    }
}

impl Tif {
    /// Converts from the proto `i32` representation; unknown numbers give `Gtc`.
    pub fn from_proto(value: i32) -> (r: Tif)
        ensures
            r == tif_of(value),
    {
            match value {
                1 => Tif::Ioc,
                2 => Tif::Fok,
                _ => Tif::Gtc,
            }
    }

    /// Converts to the proto `i32` representation.
    pub fn to_proto(self) -> (r: i32)
        ensures
            r == tif_number(self),
    {
            match self {
                Tif::Gtc => 0,
                Tif::Ioc => 1,
                Tif::Fok => 2,
            }
    }

    /// The canonical upper-case name of the variant.
    pub fn to_string(&self) -> (r: String)
        ensures
            r@ == tif_name(*self),
    {
        match self {
            Tif::Gtc => own("TIF_GTC"),
            Tif::Ioc => own("TIF_IOC"),
            Tif::Fok => own("TIF_FOK"),
        }
    }
}

/// The display name of each `Tif` variant.
pub open spec fn tif_name(v: Tif) -> Seq<char> {
    match v {
        Tif::Gtc => "TIF_GTC"@,
        Tif::Ioc => "TIF_IOC"@,
        Tif::Fok => "TIF_FOK"@,
    }
}

/// The display names of `Tif`: `Gtc` is "TIF_GTC", `Ioc` is "TIF_IOC", `Fok` is "TIF_FOK".
pub proof fn law_tif_names()
    ensures
        tif_name(Tif::Gtc) == "TIF_GTC"@,
        tif_name(Tif::Ioc) == "TIF_IOC"@,
        tif_name(Tif::Fok) == "TIF_FOK"@,
{
}

impl Default for Tif {
    /// `Gtc`.
    fn default() -> (r: Tif)
        ensures
            r == Tif::Gtc,
    {
        Tif::Gtc
    }
}

/// Every `Tif` survives the trip to its wire number and back, and every
/// number in `0..=2` survives the trip to a variant and back; any
/// other number reads as `Gtc`.
pub proof fn lemma_tif_roundtrip(v: Tif, n: i32)
    ensures
        tif_of(tif_number(v)) == v,
        0 <= n <= 2 ==> tif_number(tif_of(n)) == n,
        !(0 <= n <= 2) ==> tif_of(n) == Tif::Gtc,
{
}

/// The wire numbers of `Tif`, both ways: `Gtc` is 0, `Ioc` is 1, `Fok` is 2; any other number reads
/// as `Gtc`.
pub proof fn law_tif_wire_numbers(n: i32)
    ensures
        tif_number(Tif::Gtc) == 0,
        tif_number(Tif::Ioc) == 1,
        tif_number(Tif::Fok) == 2,
        tif_of(0) == Tif::Gtc,
        tif_of(1) == Tif::Ioc,
        tif_of(2) == Tif::Fok,
        !(0 <= n <= 2) ==> tif_of(n) == Tif::Gtc,
{
}

/// TWAP slice-size distribution; only equal slices (dust on the last) exist.
#[derive(Clone, Copy, Debug, PartialEq, Eq, Hash, Structural)]
pub enum SliceCurve {
    Uniform,
}

/// The wire number of each `SliceCurve` variant.
pub open spec fn slice_curve_number(v: SliceCurve) -> i32 {
    match v {
        SliceCurve::Uniform => 0,
    }
}

/// The `SliceCurve` that a wire number denotes; unknown numbers give `Uniform`.
pub open spec fn slice_curve_of(n: i32) -> SliceCurve {
    SliceCurve::Uniform
}

impl SliceCurve {
    /// Converts from the proto `i32` representation; unknown numbers give `Uniform`.
    pub fn from_proto(value: i32) -> (r: SliceCurve)
        ensures
            r == slice_curve_of(value),
    {
            match value {
                _ => SliceCurve::Uniform,
            }
    }

    /// Converts to the proto `i32` representation.
    pub fn to_proto(self) -> (r: i32)
        ensures
            r == slice_curve_number(self),
    {
            match self {
                SliceCurve::Uniform => 0,
            }
    }

    /// The canonical upper-case name of the variant.
    pub fn to_string(&self) -> (r: String)
        ensures
            r@ == slice_curve_name(*self),
    {
        match self {
            SliceCurve::Uniform => own("SLICE_CURVE_UNIFORM"),
        }
    }
}

/// The display name of each `SliceCurve` variant.
pub open spec fn slice_curve_name(v: SliceCurve) -> Seq<char> {
    match v {
        SliceCurve::Uniform => "SLICE_CURVE_UNIFORM"@,
    }
}

/// The display names of `SliceCurve`: `Uniform` is "SLICE_CURVE_UNIFORM".
pub proof fn law_slice_curve_names()
    ensures
        slice_curve_name(SliceCurve::Uniform) == "SLICE_CURVE_UNIFORM"@,
{
}

impl Default for SliceCurve {
    /// `Uniform`.
    fn default() -> (r: SliceCurve)
        ensures
            r == SliceCurve::Uniform,
    {
        SliceCurve::Uniform
    }
}

/// Every `SliceCurve` survives the trip to its wire number and back, and every
/// number in `0..=0` survives the trip to a variant and back; any
/// other number reads as `Uniform`.
pub proof fn lemma_slice_curve_roundtrip(v: SliceCurve, n: i32)
    ensures
        slice_curve_of(slice_curve_number(v)) == v,
        0 <= n <= 0 ==> slice_curve_number(slice_curve_of(n)) == n,
        !(0 <= n <= 0) ==> slice_curve_of(n) == SliceCurve::Uniform,
{
}

/// The wire numbers of `SliceCurve`, both ways: `Uniform` is 0; any other number reads
/// as `Uniform`.
pub proof fn law_slice_curve_wire_numbers(n: i32)
    ensures
        slice_curve_number(SliceCurve::Uniform) == 0,
        slice_curve_of(0) == SliceCurve::Uniform,
        !(0 <= n <= 0) ==> slice_curve_of(n) == SliceCurve::Uniform,
{
}

/// Comparator for a conditional trigger evaluated against the committed mark.
#[derive(Clone, Copy, Debug, PartialEq, Eq, Hash, Structural)]
pub enum Comparator {
    Above,
    Below,
}

/// The wire number of each `Comparator` variant.
pub open spec fn comparator_number(v: Comparator) -> i32 {
    match v {
        Comparator::Above => 0,
        Comparator::Below => 1,
    }
}

/// The `Comparator` that a wire number denotes; unknown numbers give `Above`.
pub open spec fn comparator_of(n: i32) -> Comparator {
    if n == 1 {
        Comparator::Below
    } else {
        Comparator::Above
    }
}

impl Comparator {
    /// Converts from the proto `i32` representation; unknown numbers give `Above`.
    pub fn from_proto(value: i32) -> (r: Comparator)
        ensures
            r == comparator_of(value),
    {
            match value {
                1 => Comparator::Below,
                _ => Comparator::Above,
            }
    }

    /// Converts to the proto `i32` representation.
    pub fn to_proto(self) -> (r: i32)
        ensures
            r == comparator_number(self),
    {
            match self {
                Comparator::Above => 0,
                Comparator::Below => 1,
            }
    }

    /// The canonical upper-case name of the variant.
    pub fn to_string(&self) -> (r: String)
        ensures
            r@ == comparator_name(*self),
    {
        match self {
            Comparator::Above => own("COMPARATOR_ABOVE"),
            Comparator::Below => own("COMPARATOR_BELOW"),
        }
    }
}

/// The display name of each `Comparator` variant.
pub open spec fn comparator_name(v: Comparator) -> Seq<char> {
    match v {
        Comparator::Above => "COMPARATOR_ABOVE"@,
        Comparator::Below => "COMPARATOR_BELOW"@,
    }
}

/// The display names of `Comparator`: `Above` is "COMPARATOR_ABOVE", `Below` is "COMPARATOR_BELOW".
pub proof fn law_comparator_names()
    ensures
        comparator_name(Comparator::Above) == "COMPARATOR_ABOVE"@,
        comparator_name(Comparator::Below) == "COMPARATOR_BELOW"@,
{
}

impl Default for Comparator {
    /// `Above`.
    fn default() -> (r: Comparator)
        ensures
            r == Comparator::Above,
    {
        Comparator::Above
    }
}

/// Every `Comparator` survives the trip to its wire number and back, and every
/// number in `0..=1` survives the trip to a variant and back; any
/// other number reads as `Above`.
pub proof fn lemma_comparator_roundtrip(v: Comparator, n: i32)
    ensures
        comparator_of(comparator_number(v)) == v,
        0 <= n <= 1 ==> comparator_number(comparator_of(n)) == n,
        !(0 <= n <= 1) ==> comparator_of(n) == Comparator::Above,
{
}

/// The wire numbers of `Comparator`, both ways: `Above` is 0, `Below` is 1; any other number reads
/// as `Above`.
pub proof fn law_comparator_wire_numbers(n: i32)
    ensures
        comparator_number(Comparator::Above) == 0,
        comparator_number(Comparator::Below) == 1,
        comparator_of(0) == Comparator::Above,
        comparator_of(1) == Comparator::Below,
        !(0 <= n <= 1) ==> comparator_of(n) == Comparator::Above,
{
}

/// A single execution-ready CLOB order; quantity is 1e8-scaled and the limit
/// price a 1e8 fixed-point decimal string.
#[derive(Clone, Debug, PartialEq, Eq, Hash)]
pub struct OrderAction {
    pub market_index: u64,
    pub bucket_id: u64,
    pub side: Side,
    pub quantity: u64,
    pub price_e8: String,
    pub tif: Tif,
}

/// A conditional trigger: fires when the committed mark of `market_index`
/// crosses `trigger_price_e8` per `cmp`.
#[derive(Clone, Debug, PartialEq, Eq, Hash)]
pub struct TriggerCondition {
    pub market_index: u64,
    pub cmp: Comparator,
    pub trigger_price_e8: String,
}

/// Conditional intent parameters: a trigger plus the order placed when it fires.
#[derive(Clone, Debug, PartialEq, Eq, Hash)]
pub struct ConditionalParams {
    pub condition: TriggerCondition,
    pub action: OrderAction,
}

/// TWAP intent parameters: `total_size` split into `num_slices` child orders
/// spread across `duration_ms`.
#[derive(Clone, Debug, PartialEq, Eq, Hash)]
pub struct TwapParams {
    pub market_index: u64,
    pub bucket_id: u64,
    pub side: Side,
    pub total_size: u64,
    pub num_slices: u32,
    pub duration_ms: u64,
    pub curve: SliceCurve,
    pub tif: Tif,
    pub limit_price_e8: String,
}

/// Percentage-of-volume intent parameters.
#[derive(Clone, Debug, PartialEq, Eq, Hash)]
pub struct PovParams {
    pub market_index: u64,
    pub bucket_id: u64,
    pub side: Side,
    pub total_size: u64,
    pub participation_rate_bps: u32,
    pub duration_ms: u64,
    pub min_slice_size: u64,
    pub max_slice_size: u64,
    pub tif: Tif,
    pub limit_price_e8: String,
}

/// Multi-leg intent parameters; all-or-nothing when `atomic`.
#[derive(Clone, Debug, PartialEq, Eq, Hash)]
pub struct MultiLegParams {
    pub legs: Vec<OrderAction>,
    pub atomic: bool,
}

/// Declarative (high-level goal) intent parameters. The goal embedding is
/// carried as the IEEE-754 bit patterns of its `f32` components.
#[derive(Clone, Debug, PartialEq, Eq)]
pub struct DeclarativeParams {
    pub raw_goal: String,
    pub goal_embedding: Vec<u32>,
    pub constraints: String,
    pub preferred_style: String,
}

/// Side of an RFQ request: the direction the taker wants quoted.
#[derive(Clone, Copy, Debug, PartialEq, Eq, Hash, Structural)]
pub enum RfqSide {
    Buy,
    Sell,
}

/// The wire number of each `RfqSide` variant.
pub open spec fn rfq_side_number(v: RfqSide) -> i32 {
    match v {
        RfqSide::Buy => 0,
        RfqSide::Sell => 1,
    }
}

/// The `RfqSide` that a wire number denotes; unknown numbers give `Buy`.
pub open spec fn rfq_side_of(n: i32) -> RfqSide {
    if n == 1 {
        RfqSide::Sell
    } else {
        RfqSide::Buy
    }
}

impl RfqSide {
    /// Converts from the proto `i32` representation; unknown numbers give `Buy`.
    pub fn from_proto(value: i32) -> (r: RfqSide)
        ensures
            r == rfq_side_of(value),
    {
            match value {
                1 => RfqSide::Sell,
                _ => RfqSide::Buy,
            }
    }

    /// Converts to the proto `i32` representation.
    pub fn to_proto(self) -> (r: i32)
        ensures
            r == rfq_side_number(self),
    {
            match self {
                RfqSide::Buy => 0,
                RfqSide::Sell => 1,
            }
    }

    /// The canonical upper-case name of the variant.
    pub fn to_string(&self) -> (r: String)
        ensures
            r@ == rfq_side_name(*self),
    {
        match self {
            RfqSide::Buy => own("BUY"),
            RfqSide::Sell => own("SELL"),
        }
    }
}

/// The display name of each `RfqSide` variant.
pub open spec fn rfq_side_name(v: RfqSide) -> Seq<char> {
    match v {
        RfqSide::Buy => "BUY"@,
        RfqSide::Sell => "SELL"@,
    }
}

/// The display names of `RfqSide`: `Buy` is "BUY", `Sell` is "SELL".
pub proof fn law_rfq_side_names()
    ensures
        rfq_side_name(RfqSide::Buy) == "BUY"@,
        rfq_side_name(RfqSide::Sell) == "SELL"@,
{
}

impl Default for RfqSide {
    /// `Buy`.
    fn default() -> (r: RfqSide)
        ensures
            r == RfqSide::Buy,
    {
        RfqSide::Buy
    }
}

/// Every `RfqSide` survives the trip to its wire number and back, and every
/// number in `0..=1` survives the trip to a variant and back; any
/// other number reads as `Buy`.
pub proof fn lemma_rfq_side_roundtrip(v: RfqSide, n: i32)
    ensures
        rfq_side_of(rfq_side_number(v)) == v,
        0 <= n <= 1 ==> rfq_side_number(rfq_side_of(n)) == n,
        !(0 <= n <= 1) ==> rfq_side_of(n) == RfqSide::Buy,
{
}

/// The wire numbers of `RfqSide`, both ways: `Buy` is 0, `Sell` is 1; any other number reads
/// as `Buy`.
pub proof fn law_rfq_side_wire_numbers(n: i32)
    ensures
        rfq_side_number(RfqSide::Buy) == 0,
        rfq_side_number(RfqSide::Sell) == 1,
        rfq_side_of(0) == RfqSide::Buy,
        rfq_side_of(1) == RfqSide::Sell,
        !(0 <= n <= 1) ==> rfq_side_of(n) == RfqSide::Buy,
{
}

/// Public terms of a sealed-bid RFQ auction.
#[derive(Clone, Debug, PartialEq, Eq)]
pub struct RfqParams {
    pub market_id: u32,
    pub size: u64,
    pub side: RfqSide,
    pub tol_bps: u32,
    pub reveal_window_secs: u64,
}

/// Typed union of the intent parameter variants.
#[derive(Clone, Debug, PartialEq, Eq)]
pub enum IntentParams {
    Conditional(ConditionalParams),
    Twap(TwapParams),
    Pov(PovParams),
    MultiLeg(MultiLegParams),
    Declarative(DeclarativeParams),
    Rfq(RfqParams),
}

/// An agent intent: a trading objective submitted by an AI agent.
#[derive(Clone, Debug, PartialEq, Eq)]
pub struct AgentIntent {
    pub intent_id: String,
    pub agent_hash: String,
    pub intent_type: IntentType,
    pub params: Option<IntentParams>,
    pub vc_proof_hash: String,
    pub expiry_timestamp: u64,
    pub priority_boost: u32,
    pub status: IntentStatus,
    pub created_at: u64,
    pub context_data: Vec<u8>,
    pub blob_merkle_root: Vec<u8>,
}

/// An intent with expiry `expiry` has expired at time `now` (0 means never).
pub open spec fn intent_expired(expiry: u64, now: u64) -> bool {
    expiry > 0 && now >= expiry
}

impl AgentIntent {
    /// `true` while the intent is pending, executing or awaiting a reveal.
    pub fn is_active(&self) -> (b: bool)
        ensures
            b == status_is_active(self.status),
    {
        self.status.is_active()
    }

    /// `true` once the intent has reached a terminal state.
    pub fn is_terminal(&self) -> (b: bool)
        ensures
            b == status_is_terminal(self.status),
    {
        self.status.is_terminal()
    }

    /// `true` if the intent has an expiry and `now` has reached it.
    pub fn is_expired(&self, now: u64) -> (b: bool)
        ensures
            b == intent_expired(self.expiry_timestamp, now),
    {
        self.expiry_timestamp > 0 && now >= self.expiry_timestamp
    }
}

/// Once expired, an intent stays expired at every later time.
pub proof fn lemma_expiry_monotone(expiry: u64, now: u64, later: u64)
    requires
        intent_expired(expiry, now),
        now <= later,
    ensures
        intent_expired(expiry, later),
{
}

/// Audit trail of an intent decomposition.
#[derive(Clone, Debug, PartialEq, Eq)]
pub struct DecompositionTrace {
    pub intent_id: String,
    pub original_goal: String,
    pub steps: Vec<String>,
    pub decomposed_at: u64,
}

/// Module parameters (governance-controlled).
#[derive(Clone, Debug, PartialEq, Eq)]
pub struct Params {
    pub default_expiry_seconds: u64,
    pub max_concurrent_intents_per_agent: u32,
    pub enable_declarative_decomposition: bool,
    pub scheduler_tick_ms: u32,
    pub require_simulation: bool,
    pub max_decomposition_steps: u32,
    pub rfq_enabled: bool,
    pub enable_intent_execution: bool,
    pub authorized_execution_signers: Vec<String>,
    pub max_intents_per_scan: u64,
    pub enable_rfq_reputation_gate: bool,
    pub min_reputation_to_quote: u64,
}

impl Default for Params {
    /// One-hour expiry, ten concurrent intents, declarative decomposition on,
    /// 500 ms ticks, at most twenty decomposition steps, everything else off.
    fn default() -> (r: Params)
        ensures
            r.default_expiry_seconds == 3600,
            r.max_concurrent_intents_per_agent == 10,
            r.enable_declarative_decomposition,
            r.scheduler_tick_ms == 500,
            !r.require_simulation,
            r.max_decomposition_steps == 20,
            !r.rfq_enabled,
            !r.enable_intent_execution,
            r.authorized_execution_signers@.len() == 0,
            r.max_intents_per_scan == 0,
            !r.enable_rfq_reputation_gate,
            r.min_reputation_to_quote == 0,
    {
        Params {
            default_expiry_seconds: 3600,
            max_concurrent_intents_per_agent: 10,
            enable_declarative_decomposition: true,
            scheduler_tick_ms: 500,
            require_simulation: false,
            max_decomposition_steps: 20,
            rfq_enabled: false,
            enable_intent_execution: false,
            authorized_execution_signers: Vec::new(),
            max_intents_per_scan: 0,
            enable_rfq_reputation_gate: false,
            min_reputation_to_quote: 0,
        }
    }
}

} // verus!
