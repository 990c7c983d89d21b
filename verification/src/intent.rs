//! Intent module: conditional, TWAP, percentage-of-volume, multi-leg,
//! declarative and RFQ intents submitted by agents, their cancellation and
//! their queries.
pub mod builder;
pub mod requests;
pub mod types;

pub use builder::{CancelIntentBuilder, SubmitIntentBuilder};
pub use crate::common::{SdkError, VERSION};
pub use requests::{
    CancelIntentRequest, CancelIntentResponse, QueryActiveIntentsRequest,
    QueryActiveIntentsResponse, QueryIntentRequest, QueryIntentResponse,
    QueryIntentsByAgentRequest, QueryIntentsByAgentResponse, QueryParamsRequest,
    QueryParamsResponse, SubmitIntentRequest, SubmitIntentResponse,
};
pub use types::{
    AgentIntent, Comparator, ConditionalParams, DeclarativeParams, DecompositionTrace,
    IntentParams, IntentStatus, IntentType, MultiLegParams, OrderAction, Params, PovParams,
    RfqParams, RfqSide, Side, SliceCurve, Tif, TriggerCondition, TwapParams,
};
