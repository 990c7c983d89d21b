use morpheum_sdk::common::StringMap;
use morpheum_sdk::dao::{Dao, DaoProposalStatus, DaoStatus, DaoType, DaoVoteOption};
use morpheum_sdk::directory::{Params as DirectoryParams, VisibilityLevel};
use morpheum_sdk::fundingrate::{FundingApplicationMode, FundingType};
use morpheum_sdk::gov::{ProposalClass, ProposalStatus, UpgradeStatus, VoteOption};
use morpheum_sdk::identity::{AgentId, AgentStatus, Capability, Params as IdentityParams};
use morpheum_sdk::inference_registry::ops;
use morpheum_sdk::inference_registry::ops::{EMBED, FINE_TUNE, INFER, VECTOR_SEARCH};
use morpheum_sdk::inference_registry::{
    ModelCommitment, ModelStatus, Params as InferenceParams, QuantFormat, RegisterModelRequest,
};
use morpheum_sdk::insurance::{AbsorbDeficitRequest, ChainType};
use morpheum_sdk::intent::{
    Comparator, IntentStatus, IntentType, Params as IntentParams, Side, SliceCurve, Tif,
};

#[test]
fn lib_public_api_compiles_cleanly() {
    let versions = [
        morpheum_sdk::dao::VERSION,
        morpheum_sdk::directory::VERSION,
        morpheum_sdk::fundingrate::VERSION,
        morpheum_sdk::gov::VERSION,
        morpheum_sdk::identity::VERSION,
        morpheum_sdk::insurance::VERSION,
        morpheum_sdk::intent::VERSION,
    ];
    for v in versions {
        let _ = v;
    }
}

#[test]
fn dao_type_roundtrip() {
    for v in 0..=3i32 {
        let t = DaoType::from(v);
        let back: i32 = t.into();
        assert_eq!(v, back);
    }
}

#[test]
fn dao_status_roundtrip() {
    for v in 0..=3i32 {
        let s = DaoStatus::from(v);
        let back: i32 = s.into();
        assert_eq!(v, back);
    }
}

#[test]
fn dao_proposal_status_roundtrip() {
    for v in 0..=8i32 {
        let s = DaoProposalStatus::from(v);
        let back: i32 = s.into();
        assert_eq!(v, back);
    }
}

#[test]
fn dao_vote_option_roundtrip() {
    for v in 0..=3i32 {
        let o = DaoVoteOption::from(v);
        let back: i32 = o.into();
        assert_eq!(v, back);
    }
}

#[test]
fn dao_helpers() {
    let dao = Dao {
        dao_id: 1,
        unique_key: vec![],
        name: String::new(),
        description: String::new(),
        dao_address: String::new(),
        dao_type: DaoType::Hybrid,
        community_token_mint: String::new(),
        council_token_mint: String::new(),
        config: None,
        status: DaoStatus::Active,
        created_at: 0,
        creator: String::new(),
        governed_assets: vec![],
        metadata: StringMap::new(),
    };

    assert!(dao.is_active());
    assert!(dao.is_hybrid());
}

#[test]
fn visibility_level_roundtrip() {
    for v in [
        VisibilityLevel::Public,
        VisibilityLevel::OwnerOnly,
        VisibilityLevel::EvaluatorOnly,
    ] {
        assert_eq!(VisibilityLevel::from_proto(v.to_proto()), v);
    }
}

#[test]
fn visibility_level_display() {
    assert_eq!(VisibilityLevel::Public.to_string(), "PUBLIC");
    assert_eq!(VisibilityLevel::OwnerOnly.to_string(), "OWNER_ONLY");
    assert_eq!(VisibilityLevel::EvaluatorOnly.to_string(), "EVALUATOR_ONLY");
}

#[test]
fn visibility_level_unknown_defaults_to_public() {
    assert_eq!(VisibilityLevel::from_proto(999), VisibilityLevel::Public);
}

#[test]
fn visibility_is_public_helper() {
    assert!(VisibilityLevel::Public.is_public());
    assert!(!VisibilityLevel::OwnerOnly.is_public());
    assert!(!VisibilityLevel::EvaluatorOnly.is_public());
}

#[test]
fn types_params_defaults() {
    let params = DirectoryParams::default();
    assert_eq!(params.default_query_limit, 50);
    assert_eq!(params.profile_cache_ttl_seconds, 300);
    assert!(params.enable_semantic_search);
    assert_eq!(params.max_subscriptions_per_agent, 10);
    assert!(params.public_directory_enabled);
    assert_eq!(params.min_reputation_for_public, 0);

    let params = IdentityParams::default();
    assert!(params.registration_enabled);
    assert!(params.allow_ownership_transfer);
    assert_eq!(params.default_capabilities, 0);
    assert_eq!(params.min_reputation_to_register, 0);

    let p = InferenceParams::default();
    assert_eq!(p.max_models, 1000);
    assert!(p.enable_auto_proof_submission);
    assert_eq!(p.default_max_tokens, 4096);

    let params = IntentParams::default();
    assert_eq!(params.default_expiry_seconds, 3600);
    assert_eq!(params.max_concurrent_intents_per_agent, 10);
    assert!(params.enable_declarative_decomposition);
    assert_eq!(params.scheduler_tick_ms, 500);
    assert!(!params.require_simulation);
    assert_eq!(params.max_decomposition_steps, 20);
    assert!(!params.rfq_enabled);
    assert!(!params.enable_intent_execution);
    assert!(params.authorized_execution_signers.is_empty());
    assert_eq!(params.max_intents_per_scan, 0);
}

#[test]
fn application_mode_roundtrip() {
    for m in [
        FundingApplicationMode::BothSides,
        FundingApplicationMode::UpsideOnly,
        FundingApplicationMode::MormBoost,
    ] {
        let v: i32 = m.into();
        assert_eq!(m, FundingApplicationMode::from(v));
    }
}

#[test]
fn funding_type_roundtrip() {
    for t in [FundingType::Linear, FundingType::Power] {
        let v: i32 = t.into();
        assert_eq!(t, FundingType::from(v));
    }
}

#[test]
fn proposal_class_roundtrip() {
    for v in 0..=7i32 {
        let class = ProposalClass::from(v);
        let back: i32 = class.into();
        assert_eq!(v, back);
    }
}

#[test]
fn proposal_status_roundtrip() {
    for v in 0..=6i32 {
        let status = ProposalStatus::from(v);
        let back: i32 = status.into();
        assert_eq!(v, back);
    }
}

#[test]
fn vote_option_roundtrip() {
    for v in 0..=4i32 {
        let opt = VoteOption::from(v);
        let back: i32 = opt.into();
        assert_eq!(v, back);
    }
}

#[test]
fn upgrade_status_roundtrip() {
    for v in 0..=5i32 {
        let status = UpgradeStatus::from(v);
        let back: i32 = status.into();
        assert_eq!(v, back);
    }
}

#[test]
fn agent_id_display() {
    let with_did = AgentId::new("did:agent:abc", "hash123");
    assert_eq!(with_did.to_string(), "did:agent:abc");
    let hash_only = AgentId::new("", "hash123");
    assert_eq!(hash_only.to_string(), "hash123");
}

#[test]
fn agent_id_is_empty() {
    assert!(AgentId::default().is_empty());
    assert!(!AgentId::new("did:agent:x", "").is_empty());
}

#[test]
fn agent_status_roundtrip() {
    for status in [
        AgentStatus::Active,
        AgentStatus::Suspended,
        AgentStatus::Slashed,
        AgentStatus::Burned,
    ] {
        assert_eq!(AgentStatus::from_proto(status.to_proto()), status);
    }
}

#[test]
fn agent_status_unknown_defaults_to_active() {
    assert_eq!(AgentStatus::from_proto(99), AgentStatus::Active);
}

#[test]
fn agent_status_is_active() {
    assert!(AgentStatus::Active.is_active());
    assert!(!AgentStatus::Suspended.is_active());
    assert!(!AgentStatus::Slashed.is_active());
    assert!(!AgentStatus::Burned.is_active());
}

#[test]
fn capability_flags() {
    let caps = Capability::TRADE | Capability::EVALUATE;
    assert!(Capability::has(caps, Capability::TRADE));
    assert!(Capability::has(caps, Capability::EVALUATE));
    assert!(!Capability::has(caps, Capability::MANAGE));
}

#[test]
fn version_is_set() {
    assert!(!morpheum_sdk::inference_registry::VERSION.is_empty());
}

#[test]
fn ops_are_distinct() {
    assert_ne!(INFER, EMBED);
    assert_ne!(EMBED, VECTOR_SEARCH);
    assert_ne!(VECTOR_SEARCH, FINE_TUNE);
    assert_eq!(INFER | EMBED, 0b11);
}

#[test]
fn register_model_with_weights() {
    let req = RegisterModelRequest::new(
        "morpheum1gov",
        "Test",
        QuantFormat::Fp16,
        70,
        vec![0; 32],
        ops::INFER,
        1,
    )
    .with_weights_payload(vec![1, 2, 3, 4]);
    assert_eq!(req.weights_payload, vec![1, 2, 3, 4]);
}

#[test]
fn quant_format_roundtrip() {
    for q in [
        QuantFormat::Unspecified,
        QuantFormat::Q4KM,
        QuantFormat::Q5KM,
        QuantFormat::Q80,
        QuantFormat::Fp16,
    ] {
        assert_eq!(QuantFormat::from_proto(q.to_proto()), q);
    }
}

#[test]
fn quant_format_display() {
    assert_eq!(QuantFormat::Q4KM.to_string(), "Q4_K_M");
    assert_eq!(QuantFormat::Q5KM.to_string(), "Q5_K_M");
    assert_eq!(QuantFormat::Q80.to_string(), "Q8_0");
    assert_eq!(QuantFormat::Fp16.to_string(), "FP16");
}

#[test]
fn quant_format_unknown_defaults() {
    assert_eq!(QuantFormat::from_proto(999), QuantFormat::Unspecified);
}

#[test]
fn model_status_roundtrip() {
    for s in [
        ModelStatus::Unspecified,
        ModelStatus::Active,
        ModelStatus::Deprecated,
        ModelStatus::UnderReview,
    ] {
        assert_eq!(ModelStatus::from_proto(s.to_proto()), s);
    }
}

#[test]
fn model_commitment_helpers() {
    let model = ModelCommitment {
        supported_ops: ops::INFER | ops::EMBED | ops::VECTOR_SEARCH,
        ..Default::default()
    };
    assert!(model.supports_infer());
    assert!(model.supports_embed());
    assert!(model.supports_vector_search());
    assert!(!model.supports_op(ops::FINE_TUNE));
}

#[test]
fn absorb_deficit_with_external() {
    let req = AbsorbDeficitRequest::new("pos1", 42, 1, "1000", "500", "morph1xyz")
        .absorber_external("0xdead", ChainType::Ethereum);
    assert_eq!(req.absorber_chain_type, Some(ChainType::Ethereum));
}

#[test]
fn chain_type_roundtrip() {
    for t in [ChainType::Ethereum, ChainType::Solana, ChainType::Bitcoin] {
        let v: i32 = t.into();
        assert_eq!(t, ChainType::from(v));
    }
    assert_eq!(ChainType::Unspecified, ChainType::from(99));
}

#[test]
fn intent_type_roundtrip() {
    for t in [
        IntentType::Conditional,
        IntentType::Twap,
        IntentType::MultiLeg,
        IntentType::Declarative,
        IntentType::Rfq,
        IntentType::Pov,
    ] {
        assert_eq!(IntentType::from_proto(t.to_proto()), t);
    }
}

#[test]
fn intent_status_roundtrip() {
    for s in [
        IntentStatus::Pending,
        IntentStatus::Executing,
        IntentStatus::Completed,
        IntentStatus::Failed,
        IntentStatus::Cancelled,
        IntentStatus::Expired,
        IntentStatus::AwaitingReveal,
    ] {
        assert_eq!(IntentStatus::from_proto(s.to_proto()), s);
    }
}

#[test]
fn intent_status_helpers() {
    assert!(IntentStatus::Pending.is_active());
    assert!(IntentStatus::Executing.is_active());
    assert!(IntentStatus::AwaitingReveal.is_active());
    assert!(!IntentStatus::Completed.is_active());
    assert!(IntentStatus::Completed.is_terminal());
    assert!(IntentStatus::Failed.is_terminal());
    assert!(IntentStatus::Cancelled.is_terminal());
    assert!(IntentStatus::Expired.is_terminal());
    assert!(!IntentStatus::Pending.is_terminal());
    assert!(!IntentStatus::AwaitingReveal.is_terminal());
}

#[test]
fn side_tif_curve_comparator_roundtrip() {
    for s in [Side::Buy, Side::Sell] {
        assert_eq!(Side::from_proto(s.to_proto()), s);
    }
    for t in [Tif::Gtc, Tif::Ioc, Tif::Fok] {
        assert_eq!(Tif::from_proto(t.to_proto()), t);
    }
    assert_eq!(
        SliceCurve::from_proto(SliceCurve::Uniform.to_proto()),
        SliceCurve::Uniform
    );
    for c in [Comparator::Above, Comparator::Below] {
        assert_eq!(Comparator::from_proto(c.to_proto()), c);
    }
}
