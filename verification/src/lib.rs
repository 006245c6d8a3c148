//! The Human Approval Layer: governance of agent actions by risk scoring,
//! permissions, policy decisions and tamper-evident audit, and the runtimes
//! that host agents.

pub mod score;
pub mod text;
pub mod table;
pub mod sequences;
pub mod clock;
pub mod digest;
pub mod ident;
pub mod json;
pub mod risk_scorer;
pub mod hal_types;
pub mod action_validator;
pub mod policy_engine;
pub mod risk_weights;
pub mod confidence_engine;
pub mod permissions;
pub mod gate;
pub mod approval_flow;
pub mod trust_calibration;
pub mod restraint_model;
pub mod restraint_runtime;
pub mod audit_chain;
pub mod audit_log;
pub mod window;
pub mod rounding;
pub mod anomaly_detection;
pub mod behavioral_model;
pub mod provenance;
pub mod session_context;
pub mod runtime_state;
pub mod authority_compressor;
pub mod autonomous_constitution;
pub mod autonomy_controller;
pub mod behavior_monitor;
pub mod capability_lattice;
pub mod cognitive_equilibrium;
pub mod cognitive_firewall;
pub mod continuity_engine;
pub mod existential_governor;
pub mod forensic_replay;
pub mod governance_kernel;
pub mod meta_governance;
pub mod recovery_kernel;
pub mod recursion_limiter;
pub mod recursive_identity;
pub mod reputation_engine;
pub mod score_fusion;
pub mod self_preservation;
pub mod path;
pub mod self_rewrite_monitor;
pub mod syscall_tracker;
pub mod temporal_trust;
pub mod trust_heuristics;
pub mod installer;
pub mod hypervisor;

pub use approval_flow::GateReason;
pub use approval_flow::GateRequest;
pub use approval_flow::GateResponse;
pub use approval_flow::HalDaemon;
pub use audit_log::AuditEntry;
pub use audit_log::AuditFilter;
pub use audit_log::AuditLog;
pub use audit_log::VerifyResult;
pub use risk_scorer::describe_score;
pub use risk_scorer::score_action;
pub use risk_scorer::ComponentScores;
pub use risk_scorer::IrreversibilityLevel;
pub use risk_scorer::PatternMatchLevel;
pub use risk_scorer::ProposedAction;
pub use risk_scorer::RiskLevel;
pub use risk_scorer::RiskScore;
pub use risk_scorer::ScopeLevel;
pub use risk_scorer::SystemContext;
pub use risk_scorer::TimeAnomalyLevel;
pub use risk_scorer::TrustContextLevel;
pub use risk_scorer::UserHistoryLevel;
pub use risk_scorer::VibeFlagLevel;
pub use trust_calibration::ActionClass;
pub use trust_calibration::Feedback;
pub use trust_calibration::TrustCalibration;
