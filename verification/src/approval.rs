//! Approvals: a request to people, and what they decide.

use crate::template::ApprovalMode;
use crate::shared::ApprovalStatus;
use crate::text::{opt_text, texts};
use crate::time::Timestamp;
use vstd::prelude::*;

verus! {

/// What an approver decides.
#[derive(Clone, Copy, Debug, PartialEq, Eq, Structural)]
pub enum Decision {
    Approve,
    Reject,
}

/// A request for approval that has been filed.
#[derive(Debug, PartialEq, Eq)]
pub struct ApprovalInstanceEntity {
    pub id: String,
    pub tenant_id: String,
    pub workflow_instance_id: String,
    pub node_id: String,
    pub title: String,
    pub description: Option<String>,
    pub approval_mode: ApprovalMode,
    pub approvers: Vec<String>,
    pub status: ApprovalStatus,
    pub created_at: Timestamp,
    pub updated_at: Timestamp,
    pub expires_at: Option<Timestamp>,
    pub applicant_id: Option<String>,
}

/// The mathematical value of an [`ApprovalInstanceEntity`].
#[verifier::ext_equal]
pub struct ApprovalView {
    pub id: Seq<char>,
    pub tenant_id: Seq<char>,
    pub workflow_instance_id: Seq<char>,
    pub node_id: Seq<char>,
    pub title: Seq<char>,
    pub description: Option<Seq<char>>,
    pub approval_mode: ApprovalMode,
    pub approvers: Seq<Seq<char>>,
    pub status: ApprovalStatus,
    pub created_at: Timestamp,
    pub updated_at: Timestamp,
    pub expires_at: Option<Timestamp>,
    pub applicant_id: Option<Seq<char>>,
}

impl View for ApprovalInstanceEntity {
    type V = ApprovalView;

    open spec fn view(&self) -> ApprovalView {
        ApprovalView {
            id: self.id@,
            tenant_id: self.tenant_id@,
            workflow_instance_id: self.workflow_instance_id@,
            node_id: self.node_id@,
            title: self.title@,
            description: opt_text(self.description),
            approval_mode: self.approval_mode,
            approvers: texts(self.approvers@),
            status: self.status,
            created_at: self.created_at,
            updated_at: self.updated_at,
            expires_at: self.expires_at,
            applicant_id: opt_text(self.applicant_id),
        }
    }
}

} // verus!
