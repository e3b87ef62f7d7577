//! The visibility policy of a surface.

use vstd::prelude::*;

use crate::capability::{EffectKind, RuntimeKind};

verus! {

/// Narrows what a surface may show. It gives no authority: what it lets through
/// can still be omitted for want of grants, trust or authorization.
#[derive(Debug, PartialEq, Eq)]
pub struct CapabilitySurfacePolicy {
    /// Runtime kinds that may appear. Empty allows none; order and duplicates do
    /// not matter.
    pub allowed_runtimes: Vec<RuntimeKind>,
    /// Every effect of a visible capability is listed here. Order and duplicates
    /// do not matter.
    pub allowed_effects: Vec<EffectKind>,
    /// Whether capabilities that need approval are shown as askable.
    pub include_requires_approval: bool,
    /// Most capabilities shown, in registry order.
    pub max_capabilities: Option<usize>,
}

/// The mathematical value of a [`CapabilitySurfacePolicy`].
#[verifier::ext_equal]
pub struct CapabilitySurfacePolicyView {
    pub allowed_runtimes: Seq<RuntimeKind>,
    pub allowed_effects: Seq<EffectKind>,
    pub include_requires_approval: bool,
    pub max_capabilities: Option<usize>,
}

impl View for CapabilitySurfacePolicy {
    type V = CapabilitySurfacePolicyView;

    open spec fn view(&self) -> CapabilitySurfacePolicyView {
        CapabilitySurfacePolicyView {
            allowed_runtimes: self.allowed_runtimes@,
            allowed_effects: self.allowed_effects@,
            include_requires_approval: self.include_requires_approval,
            max_capabilities: self.max_capabilities,
        }
    }
}

impl DeepView for CapabilitySurfacePolicy {
    type V = CapabilitySurfacePolicyView;

    open spec fn deep_view(&self) -> CapabilitySurfacePolicyView {
        self@
    }
}

impl Clone for CapabilitySurfacePolicy {
    fn clone(&self) -> (r: Self)
        ensures
            r@ == self@,
    {
        let r = CapabilitySurfacePolicy {
            allowed_runtimes: self.allowed_runtimes.clone(),
            allowed_effects: self.allowed_effects.clone(),
            include_requires_approval: self.include_requires_approval,
            max_capabilities: self.max_capabilities,
        };
        assert(r.allowed_runtimes@ =~= self.allowed_runtimes@);
        assert(r.allowed_effects@ =~= self.allowed_effects@);
        r
    }
}

impl CapabilitySurfacePolicyView {
    /// Whether a runtime may appear.
    pub open spec fn admits_runtime(self, runtime: RuntimeKind) -> bool {
        self.allowed_runtimes.contains(runtime)
    }

    /// Whether every effect is admitted.
    pub open spec fn admits_effects(self, effects: Seq<EffectKind>) -> bool {
        forall|k: int|
            0 <= k < effects.len() ==> self.allowed_effects.contains(#[trigger] effects[k])
    }

    /// The most capabilities shown.
    pub open spec fn limit(self) -> nat {
        match self.max_capabilities {
            Some(max) => max as nat,
            None => usize::MAX as nat,
        }
    }
}

impl CapabilitySurfacePolicy {
    /// The policy that narrows nothing.
    pub fn allow_all() -> (r: Self)
        ensures
            forall|runtime: RuntimeKind| r@.admits_runtime(runtime),
            forall|effects: Seq<EffectKind>| r@.admits_effects(effects),
            r@.allowed_runtimes == seq![
                RuntimeKind::Wasm,
                RuntimeKind::Mcp,
                RuntimeKind::Script,
                RuntimeKind::FirstParty,
                RuntimeKind::System,
            ],
            r@.allowed_effects == seq![
                EffectKind::ReadFilesystem,
                EffectKind::WriteFilesystem,
                EffectKind::DeleteFilesystem,
                EffectKind::Network,
                EffectKind::UseSecret,
                EffectKind::ExecuteCode,
                EffectKind::SpawnProcess,
                EffectKind::DispatchCapability,
                EffectKind::ModifyExtension,
                EffectKind::ModifyApproval,
                EffectKind::ModifyBudget,
                EffectKind::ExternalWrite,
                EffectKind::Financial,
            ],
            r@.include_requires_approval,
            r@.max_capabilities is None,
    {
        let runtimes: Vec<RuntimeKind> = vec![
            RuntimeKind::Wasm,
            RuntimeKind::Mcp,
            RuntimeKind::Script,
            RuntimeKind::FirstParty,
            RuntimeKind::System,
        ];
        let effects: Vec<EffectKind> = vec![
            EffectKind::ReadFilesystem,
            EffectKind::WriteFilesystem,
            EffectKind::DeleteFilesystem,
            EffectKind::Network,
            EffectKind::UseSecret,
            EffectKind::ExecuteCode,
            EffectKind::SpawnProcess,
            EffectKind::DispatchCapability,
            EffectKind::ModifyExtension,
            EffectKind::ModifyApproval,
            EffectKind::ModifyBudget,
            EffectKind::ExternalWrite,
            EffectKind::Financial,
        ];
        assert(runtimes@[0] == RuntimeKind::Wasm && runtimes@[1] == RuntimeKind::Mcp
            && runtimes@[2] == RuntimeKind::Script && runtimes@[3] == RuntimeKind::FirstParty
            && runtimes@[4] == RuntimeKind::System);
        assert(effects@[0] == EffectKind::ReadFilesystem && effects@[1]
            == EffectKind::WriteFilesystem && effects@[2] == EffectKind::DeleteFilesystem
            && effects@[3] == EffectKind::Network && effects@[4] == EffectKind::UseSecret
            && effects@[5] == EffectKind::ExecuteCode && effects@[6] == EffectKind::SpawnProcess
            && effects@[7] == EffectKind::DispatchCapability && effects@[8]
            == EffectKind::ModifyExtension && effects@[9] == EffectKind::ModifyApproval
            && effects@[10] == EffectKind::ModifyBudget && effects@[11]
            == EffectKind::ExternalWrite && effects@[12] == EffectKind::Financial);
        assert forall|runtime: RuntimeKind| runtimes@.contains(runtime) by {
            match runtime {
                RuntimeKind::Wasm => {},
                RuntimeKind::Mcp => {},
                RuntimeKind::Script => {},
                RuntimeKind::FirstParty => {},
                RuntimeKind::System => {},
            }
        }
        assert forall|effect: EffectKind| effects@.contains(effect) by {
            match effect {
                EffectKind::ReadFilesystem => {},
                EffectKind::WriteFilesystem => {},
                EffectKind::DeleteFilesystem => {},
                EffectKind::Network => {},
                EffectKind::UseSecret => {},
                EffectKind::ExecuteCode => {},
                EffectKind::SpawnProcess => {},
                EffectKind::DispatchCapability => {},
                EffectKind::ModifyExtension => {},
                EffectKind::ModifyApproval => {},
                EffectKind::ModifyBudget => {},
                EffectKind::ExternalWrite => {},
                EffectKind::Financial => {},
            }
        }
        CapabilitySurfacePolicy {
            allowed_runtimes: runtimes,
            allowed_effects: effects,
            include_requires_approval: true,
            max_capabilities: None,
        }
    }

    /// Whether a runtime may appear.
    pub fn allows_runtime(&self, runtime: RuntimeKind) -> (r: bool)
        ensures
            r == self@.admits_runtime(runtime),
    {
        let mut i: usize = 0;
        while i < self.allowed_runtimes.len()
            invariant
                i <= self.allowed_runtimes@.len(),
                forall|k: int| 0 <= k < i ==> self.allowed_runtimes@[k] != runtime,
            decreases self.allowed_runtimes@.len() - i,
        {
            if self.allowed_runtimes[i] == runtime {
                return true;
            }
            i = i + 1;
        }
        false
    }

    /// Whether every effect is listed.
    pub fn allows_effects(&self, effects: &Vec<EffectKind>) -> (r: bool)
        ensures
            r == self@.admits_effects(effects@),
    {
        let mut i: usize = 0;
        while i < effects.len()
            invariant
                i <= effects@.len(),
                forall|k: int|
                    0 <= k < i ==> self@.allowed_effects.contains(#[trigger] effects@[k]),
            decreases effects@.len() - i,
        {
            if !self.allows_effect(effects[i]) {
                assert(!self@.allowed_effects.contains(effects@[i as int]));
                return false;
            }
            i = i + 1;
        }
        true
    }

    fn allows_effect(&self, effect: EffectKind) -> (r: bool)
        ensures
            r == self@.allowed_effects.contains(effect),
    {
        let mut i: usize = 0;
        while i < self.allowed_effects.len()
            invariant
                i <= self.allowed_effects@.len(),
                forall|k: int| 0 <= k < i ==> self.allowed_effects@[k] != effect,
            decreases self.allowed_effects@.len() - i,
        {
            if self.allowed_effects[i] == effect {
                return true;
            }
            i = i + 1;
        }
        false
    }

    /// The most capabilities shown.
    pub fn limit(&self) -> (r: usize)
        ensures
            r == self@.limit(),
    {
        match self.max_capabilities {
            Some(max) => max,
            None => usize::MAX,
        }
    }
}

impl Default for CapabilitySurfacePolicy {
    /// The policy that shows nothing.
    fn default() -> (r: Self)
        ensures
            r@.allowed_runtimes.len() == 0,
            r@.allowed_effects.len() == 0,
            !r@.include_requires_approval,
            r@.max_capabilities is None,
    {
        CapabilitySurfacePolicy {
            allowed_runtimes: Vec::new(),
            allowed_effects: Vec::new(),
            include_requires_approval: false,
            max_capabilities: None,
        }
    }
}

/// Order and duplicates in a policy do not change what it admits.
pub proof fn law_policy_ignores_order_and_duplicates(
    left: CapabilitySurfacePolicyView,
    right: CapabilitySurfacePolicyView,
    runtime: RuntimeKind,
    effects: Seq<EffectKind>,
)
    requires
        forall|kind: RuntimeKind| #![auto]
            left.allowed_runtimes.contains(kind) <==> right.allowed_runtimes.contains(kind),
        forall|kind: EffectKind| #![auto]
            left.allowed_effects.contains(kind) <==> right.allowed_effects.contains(kind),
    ensures
        left.admits_runtime(runtime) == right.admits_runtime(runtime),
        left.admits_effects(effects) == right.admits_effects(effects),
{
    if left.admits_effects(effects) {
        assert(right.admits_effects(effects));
    }
    if right.admits_effects(effects) {
        assert(left.admits_effects(effects));
    }
}

/// A policy admits a runtime exactly if it lists it, effects exactly if it lists
/// each of them, and as many capabilities as its maximum says, or any number.
pub proof fn law_policy_admits_what_it_lists(
    policy: CapabilitySurfacePolicyView,
    runtime: RuntimeKind,
    effects: Seq<EffectKind>,
)
    ensures
        policy.admits_runtime(runtime) <==> policy.allowed_runtimes.contains(runtime),
        policy.admits_effects(effects) <==> forall|effect: EffectKind|
            effects.contains(effect) ==> #[trigger] policy.allowed_effects.contains(effect),
        policy.max_capabilities matches Some(max) ==> policy.limit() == max,
        policy.max_capabilities is None ==> policy.limit() == usize::MAX,
{
    if policy.admits_effects(effects) {
        assert forall|effect: EffectKind|
            effects.contains(effect) implies #[trigger] policy.allowed_effects.contains(
            effect,
        ) by {
            let k = choose|k: int| 0 <= k < effects.len() && effects[k] == effect;
            assert(policy.allowed_effects.contains(effects[k]));
        }
    } else {
        let k = choose|k: int|
            0 <= k < effects.len() && !policy.allowed_effects.contains(#[trigger] effects[k]);
        assert(effects.contains(effects[k]));
    }
}

} // verus!
