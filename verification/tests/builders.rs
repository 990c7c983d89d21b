use morpheum_sdk::common::{AccountId, StringMap};
use morpheum_sdk::dao::{
    CreateDaoBuilder, DaoConfig, DaoDepositBuilder, DaoType, DaoVoteBuilder, DaoVoteOption,
    ExecuteDaoProposalBuilder, WeightedDaoVoteOption, WithdrawDaoDepositBuilder,
};
use morpheum_sdk::directory::{UpdateProfileBuilder, UpdateVisibilityBuilder, VisibilityLevel};
use morpheum_sdk::fundingrate::{
    FundingApplicationMode, FundingMarketProfile, UpdateMarketProfileBuilder,
};
use morpheum_sdk::gov::{
    Proposal, ProposalClass, ProposalDepositBuilder, ProposalStatus, ProposalVoteBuilder,
    ScheduleUpgradeBuilder, SubmitProposalBuilder, UpgradePlan, UpgradeStatus, VoteOption,
    WeightedVoteOption,
};
use morpheum_sdk::inference_registry::ops;
use morpheum_sdk::inference_registry::{
    ModelCommitment, Params as InferenceParams, QuantFormat, RegisterModelBuilder,
    UpdateParamsBuilder,
};
use morpheum_sdk::insurance::{
    AbsorbDeficitBuilder, ChainType, ClaimBountyBuilder, ClaimYieldBuilder, HedgeIlBuilder,
    ReplenishVaultBuilder, StakeToVaultBuilder, WithdrawStakeBuilder,
};
use morpheum_sdk::intent::{
    AgentIntent, CancelIntentBuilder, Comparator, ConditionalParams, DeclarativeParams,
    IntentParams, IntentStatus, IntentType, MultiLegParams, OrderAction, Side, SliceCurve,
    SubmitIntentBuilder, Tif, TriggerCondition, TwapParams,
};

fn grants_config() -> DaoConfig {
    DaoConfig {
        voting_period: "86400s".into(),
        hold_up_time: "3600s".into(),
        min_deposit_for_proposal: "1000".into(),
        quorum: "0.2".into(),
        approval_threshold: "0.5".into(),
        allow_council_override: true,
        use_conviction_voting: false,
        max_active_proposals: 10,
        plugin_configs: StringMap::new(),
    }
}

#[test]
fn create_dao_builder_full_flow() {
    let from = AccountId::new([1u8; 32]);
    let request = CreateDaoBuilder::new()
        .from_address(from.clone())
        .name("Morpheum Grants DAO")
        .description("Manages ecosystem grants")
        .community_token_mint("morpheum1mint")
        .council_token_mint("morpheum1council")
        .dao_type(DaoType::Hybrid)
        .config(grants_config())
        .metadata("website", "https://dao.morpheum.xyz")
        .build()
        .unwrap();

    assert_eq!(request.from_address, from);
    assert_eq!(request.name, "Morpheum Grants DAO");
    assert_eq!(request.dao_type, DaoType::Hybrid);
    assert!(request.council_token_mint.is_some());
    assert_eq!(request.metadata.get("website").unwrap(), "https://dao.morpheum.xyz");
}

#[test]
fn create_dao_builder_validation() {
    let result = CreateDaoBuilder::new().build();
    assert!(result.is_err());
}

#[test]
fn dao_vote_builder_requires_options() {
    let from = AccountId::new([2u8; 32]);
    let result = DaoVoteBuilder::new().from_address(from).dao_id(1).proposal_id(1).build();
    assert!(result.is_err());
}

#[test]
fn dao_vote_builder_with_split_vote() {
    let from = AccountId::new([3u8; 32]);
    let request = DaoVoteBuilder::new()
        .from_address(from)
        .dao_id(1)
        .proposal_id(42)
        .add_option(WeightedDaoVoteOption::new(DaoVoteOption::Yes, "0.7"))
        .add_option(WeightedDaoVoteOption::new(DaoVoteOption::No, "0.3"))
        .conviction_multiplier(4)
        .build()
        .unwrap();

    assert_eq!(request.dao_id, 1);
    assert_eq!(request.proposal_id, 42);
    assert_eq!(request.options.len(), 2);
    assert_eq!(request.conviction_multiplier, 4);
}

#[test]
fn dao_deposit_builder_works() {
    let request = DaoDepositBuilder::new()
        .from_address(AccountId::new([4u8; 32]))
        .dao_id(1)
        .token_mint("morpheum1mint")
        .amount("5000000")
        .lock_until(1_700_100_000)
        .build()
        .unwrap();

    assert_eq!(request.dao_id, 1);
    assert_eq!(request.amount, "5000000");
    assert_eq!(request.lock_until, 1_700_100_000);
}

#[test]
fn execute_proposal_builder_works() {
    let request = ExecuteDaoProposalBuilder::new()
        .from_address(AccountId::new([5u8; 32]))
        .dao_id(1)
        .proposal_id(99)
        .build()
        .unwrap();

    assert_eq!(request.dao_id, 1);
    assert_eq!(request.proposal_id, 99);
}

#[test]
fn withdraw_deposit_builder_works() {
    let request = WithdrawDaoDepositBuilder::new()
        .from_address(AccountId::new([6u8; 32]))
        .dao_id(1)
        .token_mint("morpheum1mint")
        .amount("0")
        .build()
        .unwrap();

    assert_eq!(request.amount, "0");
}

#[test]
fn submit_proposal_builder_full_flow() {
    let from = AccountId::new([1u8; 32]);
    let request = SubmitProposalBuilder::new()
        .from_address(from.clone())
        .proposal_class(ProposalClass::Standard)
        .title("Upgrade market params")
        .description("Change BTC-USDC tick size to 0.001")
        .metadata("ipfs://QmTest123")
        .initial_deposit("1000000")
        .additional_metadata("affected_market", "BTC-USDC")
        .build()
        .unwrap();
    assert_eq!(request.from_address, from);
    assert_eq!(request.proposal_class, ProposalClass::Standard);
    assert_eq!(request.title, "Upgrade market params");
    assert_eq!(request.additional_metadata.get("affected_market").unwrap(), "BTC-USDC");
}

#[test]
fn submit_proposal_builder_validation() {
    let result = SubmitProposalBuilder::new().build();
    assert!(result.is_err());
}

#[test]
fn builder_vote_builder_requires_options() {
    let from = AccountId::new([2u8; 32]);
    let result = ProposalVoteBuilder::new().from_address(from).proposal_id(1).build();
    assert!(result.is_err());
}

#[test]
fn builder_vote_builder_with_split_vote() {
    let from = AccountId::new([3u8; 32]);
    let request = ProposalVoteBuilder::new()
        .from_address(from)
        .proposal_id(42)
        .add_option(WeightedVoteOption::new(VoteOption::Yes, "0.6"))
        .add_option(WeightedVoteOption::new(VoteOption::Abstain, "0.4"))
        .conviction_multiplier(2)
        .build()
        .unwrap();
    assert_eq!(request.proposal_id, 42);
    assert_eq!(request.options.len(), 2);
    assert_eq!(request.conviction_multiplier, 2);
}

#[test]
fn builder_deposit_builder_works() {
    let request = ProposalDepositBuilder::new()
        .from_address(AccountId::new([4u8; 32]))
        .proposal_id(7)
        .amount("500000")
        .build()
        .unwrap();
    assert_eq!(request.proposal_id, 7);
    assert_eq!(request.amount, "500000");
}

#[test]
fn schedule_upgrade_builder_works() {
    let plan = UpgradePlan {
        name: "v2.1.0-morpheum".into(),
        info: "ipfs://QmUpgrade".into(),
        activation_staple_id: 0,
        activation_time: 0,
        binary_hash: vec![0xde, 0xad, 0xbe, 0xef],
        grace_period_seconds: 3600,
        additional_metadata: StringMap::new(),
    };
    let request = ScheduleUpgradeBuilder::new()
        .from_address(AccountId::new([6u8; 32]))
        .proposal_class(ProposalClass::Root)
        .upgrade_plan(plan)
        .title("v2.1.0 Upgrade")
        .description("Zero-downtime binary upgrade")
        .initial_deposit("5000000")
        .additional_metadata("shadow_mode", "true")
        .build()
        .unwrap();
    assert_eq!(request.proposal_class, ProposalClass::Root);
    assert_eq!(request.upgrade_plan.name, "v2.1.0-morpheum");
}

#[test]
fn proposal_status_helpers() {
    let mut proposal = Proposal {
        proposal_id: 1,
        proposal_class: ProposalClass::Standard,
        messages: vec![],
        title: "Test".into(),
        description: "Test proposal".into(),
        metadata: String::new(),
        submit_time: 1_700_000_000,
        deposit_end_time: 1_700_100_000,
        voting_start_time: 0,
        voting_end_time: 0,
        status: ProposalStatus::DepositPeriod,
        final_tally_result: None,
        total_deposit: "1000".into(),
        proposer: "morpheum1abc".into(),
        enactment_time: 0,
        upgrade_status: UpgradeStatus::Unspecified,
        upgrade_plan_id: 0,
        additional_metadata: StringMap::new(),
    };

    assert!(proposal.is_deposit_period());
    assert!(!proposal.is_voting_period());
    assert!(!proposal.is_passed());

    proposal.status = ProposalStatus::VotingPeriod;
    assert!(proposal.is_voting_period());

    proposal.status = ProposalStatus::Passed;
    assert!(proposal.is_passed());
}

#[test]
fn update_profile_builder_full_flow() {
    let request = UpdateProfileBuilder::new()
        .agent_hash("agent-abc")
        .display_name("AlphaBot")
        .description("High-frequency trading agent")
        .tags("hft,btc,eth")
        .build()
        .unwrap();
    assert_eq!(request.agent_hash, "agent-abc");
    assert_eq!(request.display_name, "AlphaBot");
    assert_eq!(request.description, "High-frequency trading agent");
    assert_eq!(request.tags, "hft,btc,eth");
}

#[test]
fn update_profile_builder_minimal() {
    let request = UpdateProfileBuilder::new()
        .agent_hash("agent-abc")
        .display_name("Bot")
        .build()
        .unwrap();
    assert!(request.description.is_empty());
    assert!(request.tags.is_empty());
}

#[test]
fn builder_update_profile_builder_validation() {
    let result = UpdateProfileBuilder::new().build();
    assert!(result.is_err());
    let result = UpdateProfileBuilder::new().agent_hash("agent-abc").build();
    assert!(result.is_err());
}

#[test]
fn update_visibility_builder_full_flow() {
    let request = UpdateVisibilityBuilder::new()
        .agent_hash("agent-abc")
        .new_visibility(VisibilityLevel::EvaluatorOnly)
        .build()
        .unwrap();
    assert_eq!(request.agent_hash, "agent-abc");
    assert_eq!(request.new_visibility, VisibilityLevel::EvaluatorOnly);
}

#[test]
fn update_visibility_builder_validation() {
    let result = UpdateVisibilityBuilder::new().build();
    assert!(result.is_err());
    let result = UpdateVisibilityBuilder::new().agent_hash("agent-abc").build();
    assert!(result.is_err());
}

fn neutral_profile() -> FundingMarketProfile {
    FundingMarketProfile {
        mode: FundingApplicationMode::BothSides,
        vrf_bias_bps: 0,
        protocol_cut_bps: 0,
        lp_incentive_bps: 0,
    }
}

#[test]
fn update_profile_builder_works() {
    let req = UpdateMarketProfileBuilder::new()
        .authority("morpheum1gov")
        .market_index(42)
        .profile(neutral_profile())
        .build()
        .unwrap();
    assert_eq!(req.authority, "morpheum1gov");
    assert_eq!(req.market_index, 42);
}

#[test]
fn funding_profile_builder_validation() {
    assert!(UpdateMarketProfileBuilder::new().build().is_err());
}

#[test]
fn register_model_builder_full_flow() {
    let request = RegisterModelBuilder::new()
        .authority("morpheum1gov")
        .display_name("Llama-3.1-8B-Q4")
        .quant_format(QuantFormat::Q4KM)
        .param_count(8)
        .zk_commitment(vec![0xBB; 32])
        .supported_ops(ops::INFER | ops::EMBED)
        .version(1)
        .build()
        .unwrap();
    assert_eq!(request.authority, "morpheum1gov");
    assert_eq!(request.display_name, "Llama-3.1-8B-Q4");
    assert_eq!(request.quant_format, QuantFormat::Q4KM);
    assert_eq!(request.param_count, 8);
    assert_eq!(request.version, 1);
    assert!(request.weights_payload.is_empty());
}

#[test]
fn register_model_builder_with_weights() {
    let request = RegisterModelBuilder::new()
        .authority("morpheum1gov")
        .display_name("Test")
        .quant_format(QuantFormat::Fp16)
        .param_count(70)
        .zk_commitment(vec![0; 32])
        .supported_ops(ops::INFER)
        .version(1)
        .weights_payload(vec![1, 2, 3])
        .build()
        .unwrap();
    assert_eq!(request.weights_payload, vec![1, 2, 3]);
}

#[test]
fn register_model_builder_validation() {
    let result = RegisterModelBuilder::new().build();
    assert!(result.is_err());
    let result = RegisterModelBuilder::new()
        .authority("morpheum1gov")
        .display_name("Test")
        .quant_format(QuantFormat::Q4KM)
        .build();
    assert!(result.is_err());
    let result = RegisterModelBuilder::new()
        .authority("morpheum1gov")
        .display_name("Test")
        .quant_format(QuantFormat::Q4KM)
        .param_count(8)
        .zk_commitment(vec![0; 32])
        .supported_ops(ops::INFER)
        .build();
    assert!(result.is_err());
}

#[test]
fn update_params_builder_full_flow() {
    let mut params = InferenceParams::default();
    params.max_models = 500;
    params.governance_threshold = 3;
    let request = UpdateParamsBuilder::new()
        .authority("morpheum1gov")
        .params(params)
        .build()
        .unwrap();
    assert_eq!(request.authority, "morpheum1gov");
    assert_eq!(request.params.max_models, 500);
    assert_eq!(request.params.governance_threshold, 3);
}

#[test]
fn update_params_builder_validation() {
    let result = UpdateParamsBuilder::new().build();
    assert!(result.is_err());
    let result = UpdateParamsBuilder::new().authority("morpheum1gov").build();
    assert!(result.is_err());
}

#[test]
fn model_id_hex() {
    let model = ModelCommitment { model_id: vec![0xab, 0xcd], ..Default::default() };
    assert_eq!(model.model_id_hex(), "abcd");
}

#[test]
fn absorb_deficit_builder_works() {
    let req = AbsorbDeficitBuilder::new()
        .position_id("pos1")
        .market_index(42)
        .asset_index(1)
        .deficit_amount("1000")
        .recovered_amount("500")
        .absorber_address("morph1xyz")
        .build()
        .unwrap();
    assert_eq!(req.position_id, "pos1");
    assert_eq!(req.market_index, 42);
}

#[test]
fn absorb_deficit_builder_validation() {
    assert!(AbsorbDeficitBuilder::new().build().is_err());
}

#[test]
fn stake_to_vault_builder_works() {
    let req = StakeToVaultBuilder::new()
        .address("morph1xyz")
        .asset_index(1)
        .amount("1000")
        .build()
        .unwrap();
    assert_eq!(req.address, "morph1xyz");
}

#[test]
fn withdraw_stake_builder_validation() {
    assert!(WithdrawStakeBuilder::new().build().is_err());
}

#[test]
fn claim_yield_builder_works() {
    let req = ClaimYieldBuilder::new().address("morph1xyz").asset_index(1).build().unwrap();
    assert_eq!(req.asset_index, 1);
}

#[test]
fn claim_bounty_builder_validation() {
    assert!(ClaimBountyBuilder::new().build().is_err());
}

#[test]
fn hedge_il_builder_works() {
    let req = HedgeIlBuilder::new()
        .address("morph1xyz")
        .asset_index(1)
        .amount("100")
        .build()
        .unwrap();
    assert_eq!(req.amount, "100");
}

#[test]
fn replenish_vault_builder_with_external() {
    let req = ReplenishVaultBuilder::new()
        .asset_index(1)
        .amount("500")
        .source("fees")
        .replenisher_address("morph1xyz")
        .replenisher_external("0xdead", ChainType::Ethereum)
        .build()
        .unwrap();
    assert_eq!(req.replenisher_chain_type, Some(ChainType::Ethereum));
}

fn btc_buy(quantity: u64, price: &str) -> OrderAction {
    OrderAction {
        market_index: 1,
        bucket_id: 1,
        side: Side::Buy,
        quantity,
        price_e8: price.into(),
        tif: Tif::Gtc,
    }
}

fn above_trigger() -> ConditionalParams {
    ConditionalParams {
        condition: TriggerCondition {
            market_index: 1,
            cmp: Comparator::Above,
            trigger_price_e8: "5000000000000".into(),
        },
        action: btc_buy(100_000_000, "5000000000000"),
    }
}

#[test]
fn submit_conditional_builder_full_flow() {
    let request = SubmitIntentBuilder::new()
        .agent_hash("agent-abc")
        .conditional(above_trigger())
        .vc_proof_hash("vc-hash")
        .expiry_timestamp(1_700_003_600)
        .priority_boost(5)
        .agent_signature(vec![1u8; 64])
        .build()
        .unwrap();
    assert_eq!(request.intent.agent_hash, "agent-abc");
    assert_eq!(request.intent.intent_type, IntentType::Conditional);
    assert_eq!(request.intent.expiry_timestamp, 1_700_003_600);
    assert_eq!(request.intent.priority_boost, 5);
    assert!(matches!(request.intent.params, Some(IntentParams::Conditional(_))));
}

#[test]
fn submit_twap_builder() {
    let request = SubmitIntentBuilder::new()
        .agent_hash("agent-xyz")
        .twap(TwapParams {
            market_index: 3,
            bucket_id: 9,
            side: Side::Buy,
            total_size: 100_000,
            num_slices: 10,
            duration_ms: 60_000,
            curve: SliceCurve::Uniform,
            tif: Tif::Gtc,
            limit_price_e8: "5000000000000".into(),
        })
        .agent_signature(vec![2u8; 64])
        .build()
        .unwrap();
    assert_eq!(request.intent.intent_type, IntentType::Twap);
}

#[test]
fn submit_multi_leg_builder() {
    let mut sell = btc_buy(500, "200000000");
    sell.market_index = 2;
    sell.side = Side::Sell;
    let request = SubmitIntentBuilder::new()
        .agent_hash("agent-ml")
        .multi_leg(MultiLegParams { legs: vec![btc_buy(1000, "100000000"), sell], atomic: true })
        .agent_signature(vec![3u8; 64])
        .build()
        .unwrap();
    assert_eq!(request.intent.intent_type, IntentType::MultiLeg);
    assert!(matches!(
        request.intent.params,
        Some(IntentParams::MultiLeg(ref p)) if p.atomic && p.legs.len() == 2
    ));
}

#[test]
fn submit_declarative_builder() {
    let embedding: Vec<u32> = [0.1f32, 0.2, 0.3].iter().map(|x| x.to_bits()).collect();
    let request = SubmitIntentBuilder::new()
        .agent_hash("agent-decl")
        .declarative(DeclarativeParams {
            raw_goal: "Maximise yield on idle USDC".into(),
            goal_embedding: embedding,
            constraints: r#"{"max_risk": "low"}"#.into(),
            preferred_style: "conservative".into(),
        })
        .agent_signature(vec![4u8; 64])
        .build()
        .unwrap();
    assert_eq!(request.intent.intent_type, IntentType::Declarative);
}

#[test]
fn submit_builder_validation_missing_agent() {
    let result = SubmitIntentBuilder::new().build();
    assert!(result.is_err());
}

#[test]
fn submit_builder_validation_missing_params() {
    let result = SubmitIntentBuilder::new()
        .agent_hash("agent-abc")
        .intent_type(IntentType::Conditional)
        .agent_signature(vec![1u8; 64])
        .build();
    assert!(result.is_err());
}

#[test]
fn submit_builder_defaults() {
    let request = SubmitIntentBuilder::new()
        .agent_hash("agent-abc")
        .conditional(above_trigger())
        .agent_signature(vec![1u8; 64])
        .build()
        .unwrap();
    assert_eq!(request.intent.expiry_timestamp, 0);
    assert_eq!(request.intent.priority_boost, 0);
    assert!(request.intent.vc_proof_hash.is_empty());
    assert!(request.intent.intent_id.is_empty());
    assert_eq!(request.intent.status, IntentStatus::Pending);
}

#[test]
fn cancel_builder_full_flow() {
    let request = CancelIntentBuilder::new()
        .intent_id("intent-001")
        .agent_signature(vec![5u8; 64])
        .reason("Market conditions changed")
        .build()
        .unwrap();
    assert_eq!(request.intent_id, "intent-001");
    assert_eq!(request.reason, "Market conditions changed");
}

#[test]
fn cancel_builder_validation() {
    let result = CancelIntentBuilder::new().build();
    assert!(result.is_err());
    let result = CancelIntentBuilder::new().intent_id("intent-001").build();
    assert!(result.is_err());
}

#[test]
fn agent_intent_helpers() {
    let mut intent = AgentIntent {
        intent_id: String::new(),
        agent_hash: String::new(),
        intent_type: IntentType::Conditional,
        params: None,
        vc_proof_hash: String::new(),
        expiry_timestamp: 1_700_003_600,
        priority_boost: 0,
        status: IntentStatus::Pending,
        created_at: 0,
        context_data: vec![],
        blob_merkle_root: vec![],
    };
    assert!(intent.is_active());
    assert!(!intent.is_terminal());
    assert!(!intent.is_expired(1_700_000_000));
    assert!(intent.is_expired(1_700_003_600));

    intent.status = IntentStatus::Completed;
    assert!(!intent.is_active());
    assert!(intent.is_terminal());
}
