//! The messages that a node and its coordinator exchange.

use vstd::prelude::*;

verus! {

// ---------------------------------------------------------------------------
// Hardware
// ---------------------------------------------------------------------------

/// The hardware that a node announces when it registers.
#[derive(Debug, PartialEq, Eq)]
pub struct NodeHardwareSpecs {
    pub cpu_cores: u32,
    pub memory_gb: u32,
    pub storage_gb: u32,
    pub gpu_model: Option<String>,
}

impl Clone for NodeHardwareSpecs {
    fn clone(&self) -> (r: Self)
        ensures
            r == *self,
    {
        let gpu_model = match &self.gpu_model {
            Some(model) => Some(model.clone()),
            None => None,
        };
        NodeHardwareSpecs {
            cpu_cores: self.cpu_cores,
            memory_gb: self.memory_gb,
            storage_gb: self.storage_gb,
            gpu_model,
        }
    }
}

// ---------------------------------------------------------------------------
// Registration
// ---------------------------------------------------------------------------

/// Asks for a nonce that the wallet has to sign.
#[derive(Debug, PartialEq, Eq)]
pub struct NonceRequest {
    pub wallet_address: String,
}

/// The nonce, and the message around it that the wallet has to sign.
#[derive(Debug, PartialEq, Eq)]
pub struct NonceResponse {
    pub nonce: String,
    pub message: String,
    pub expires_at: Option<String>,
}

/// Registers a node under its wallet address.
#[derive(Debug, PartialEq, Eq)]
pub struct NodeRegistrationRequest {
    pub wallet_address: String,
    pub signature: String,
    pub hardware: NodeHardwareSpecs,
    pub region: String,
    pub public_ip: String,
    pub stake_amount: String,
}

/// What the coordinator answers to a registration.
#[derive(Debug, PartialEq, Eq)]
pub struct NodeRegistrationResponse {
    pub node_id: u64,
    pub token: String,
    pub status: String,
}

// ---------------------------------------------------------------------------
// Assignments
// ---------------------------------------------------------------------------

/// The terms of one match.
#[derive(Debug, PartialEq, Eq)]
pub struct MatchAssignmentConfig {
    pub match_id: u64,
    pub player1_id: u64,
    pub player2_id: u64,
    pub game_mode: String,
    pub wager_amount: String,
    pub timeout_seconds: u64,
}

impl Clone for MatchAssignmentConfig {
    fn clone(&self) -> (r: Self)
        ensures
            r == *self,
    {
        MatchAssignmentConfig {
            match_id: self.match_id,
            player1_id: self.player1_id,
            player2_id: self.player2_id,
            game_mode: self.game_mode.clone(),
            wager_amount: self.wager_amount.clone(),
            timeout_seconds: self.timeout_seconds,
        }
    }
}

/// One match that the coordinator hands to this node.
#[derive(Debug, PartialEq, Eq)]
pub struct NodeAssignment {
    pub id: u64,
    pub match_id: u64,
    pub status: String,
    pub assigned_at: String,
    pub expires_at: String,
    pub match_config: MatchAssignmentConfig,
}

impl Clone for NodeAssignment {
    fn clone(&self) -> (r: Self)
        ensures
            r == *self,
    {
        NodeAssignment {
            id: self.id,
            match_id: self.match_id,
            status: self.status.clone(),
            assigned_at: self.assigned_at.clone(),
            expires_at: self.expires_at.clone(),
            match_config: self.match_config.clone(),
        }
    }
}

/// What the coordinator answers to a poll.
#[derive(Debug, PartialEq, Eq)]
pub struct AssignmentResponse {
    pub assignments: Vec<NodeAssignment>,
}

// ---------------------------------------------------------------------------
// Match report
// ---------------------------------------------------------------------------

/// How a match ended.
#[derive(Debug, PartialEq, Eq)]
pub struct NodeMatchReport {
    pub match_id: u64,
    pub winner_id: Option<u64>,
    pub end_reason: String,
    pub duration_seconds: u64,
    pub recording_ref: Option<String>,
    pub container_logs: Option<String>,
}

} // verus!
