use vstd::prelude::*;
use vstd::arithmetic::div_mod::lemma_fundamental_div_mod;
use crate::audit::{audit_line, audit_record};
use crate::policy::NearApps;
use crate::tags::{opt_tags_view, ContractArgs, Tags};

verus! {

/// The share of a prepaid compute budget handed to each downstream hop: the
/// forwarded call and its continuation each receive exactly one third,
/// rounded down.
pub open spec fn gas_share(prepaid_gas: u64) -> u64 {
    prepaid_gas / 3
}

/// Everything the host needs to issue a permitted forwarded invocation and
/// register its continuation: the target, the invocation descriptor, the
/// attached deposit passed through verbatim, the two compute-budget shares,
/// and the tags the continuation carries across the suspension point.
pub struct ForwardAction {
    pub target: String,
    pub args: ContractArgs,
    pub attached_deposit: u128,
    pub call_gas: u64,
    pub callback_gas: u64,
    pub tags: Option<Tags>,
}

/// The coordinator's synchronous decision on a request.
pub enum CallOutcome {
    /// The tags failed the tag policy: the request is aborted fatally before
    /// anything is forwarded or any resource committed.
    TagsRejected,
    /// The target failed the allowlist policy: nothing is forwarded, and the
    /// call returns normally with nothing to do.
    TargetNotApproved,
    /// The request passed both checks: the host is to issue exactly this
    /// forwarded invocation.
    Forward(ForwardAction),
}

/// The outcome of the forwarded call, observed at the continuation: success
/// with an opaque payload, or failure.
pub enum ForwardOutcome {
    Successful(Vec<u8>),
    Failed,
}

/// The continuation's decision once the forwarded call's outcome is known.
pub enum PromiseDecision {
    /// The forwarded call succeeded and tags were carried: emit exactly this
    /// audit record.
    Audit(String),
    /// The forwarded call succeeded without tags: nothing to emit, not an
    /// error.
    NoAudit,
    /// The forwarded call failed: the continuation aborts fatally, and no
    /// audit record is emitted.
    Abort,
}

impl NearApps {
    /// The coordinator's entry point: checks the tags, then the target, and
    /// either rejects the request, skips it silently, or hands back the one
    /// forwarded invocation to issue.
    ///
    /// The tag check runs first, so a request failing it is rejected before
    /// any target evaluation or resource commitment. A rejected target is
    /// deliberately not an error. The deposit is passed through verbatim;
    /// the forwarded call and the continuation each get one third of the
    /// prepaid compute budget.
    pub fn call(
        &self,
        tags: Option<Tags>,
        contract_name: String,
        args: ContractArgs,
        attached_deposit: u128,
        prepaid_gas: u64,
    ) -> (r: CallOutcome)
        ensures
            r is TagsRejected <==> !self.tags_permitted(opt_tags_view(tags)),
            r is TargetNotApproved <==> (self.tags_permitted(opt_tags_view(tags))
                && !self.target_permitted(contract_name@)),
            r is Forward <==> (self.tags_permitted(opt_tags_view(tags)) && self.target_permitted(
                contract_name@,
            )),
            (r matches CallOutcome::Forward(action) ==> {
                &&& action.target@ == contract_name@
                &&& action.args@ == args@
                &&& action.attached_deposit == attached_deposit
                &&& action.call_gas == gas_share(prepaid_gas)
                &&& action.callback_gas == gas_share(prepaid_gas)
                &&& opt_tags_view(action.tags) == opt_tags_view(tags)
            }),
    {
        if !self.verify_tags(&tags) {
            return CallOutcome::TagsRejected;
        }
        if self.verify_contract(&contract_name) {
            let call_gas = prepaid_gas / 3;
            let callback_gas = prepaid_gas / 3;
            CallOutcome::Forward(
                ForwardAction {
                    target: contract_name,
                    args,
                    attached_deposit,
                    call_gas,
                    callback_gas,
                    tags,
                },
            )
        } else {
            CallOutcome::TargetNotApproved
        }
    }

    /// The continuation's entry point, re-entered by the host once the
    /// forwarded call's outcome is known, with the tags carried by value
    /// across the suspension point.
    ///
    /// On success the audit record is emitted exactly when tags are present;
    /// a failure is never swallowed here, unlike a rejected target in
    /// [`NearApps::call`].
    pub fn check_promise(&self, tags: Option<Tags>, outcome: ForwardOutcome) -> (r:
        PromiseDecision)
        ensures
            r is Abort <==> outcome is Failed,
            r is NoAudit <==> (outcome is Successful && tags is None),
            (outcome is Successful && tags is Some) ==> r is Audit,
            (r matches PromiseDecision::Audit(line) ==> tags matches Option::Some(t) && line@
                == audit_line(t@)),
    {
        match outcome {
            ForwardOutcome::Successful(_) => match tags {
                Option::Some(t) => PromiseDecision::Audit(audit_record(&t)),
                Option::None => PromiseDecision::NoAudit,
            },
            ForwardOutcome::Failed => PromiseDecision::Abort,
        }
    }
}

/// The budget split: of a prepaid compute budget, the forwarded call and the
/// continuation are each allocated exactly one third, rounded down; together
/// the two shares never exceed the budget, and what is left over — the third
/// share plus the rounding rest — is retained by the coordinator, never
/// allocated downstream.
pub proof fn lemma_budget_split(prepaid_gas: u64)
    ensures
        gas_share(prepaid_gas) + gas_share(prepaid_gas) <= prepaid_gas,
        prepaid_gas - 2 * gas_share(prepaid_gas) == gas_share(prepaid_gas) + prepaid_gas % 3,
        prepaid_gas % 3 < 3,
{
    lemma_fundamental_div_mod(prepaid_gas as int, 3);
}

} // verus!
