use vstd::prelude::*;
use crate::address::Address;
use crate::authority::{check_unallocated, fresh_error, AccountSnapshot};
use crate::error::ErrorCode;
use crate::layout::{has_kind, BaseKind, ExtensionKind};
use crate::steps::{init_kind, ExtensionInit, Step};

verus! {

/// Whether every requested extension has been initialized.
pub open spec fn all_initialized(requested: Seq<ExtensionKind>, initialized: Seq<ExtensionKind>) -> bool {
    forall|i: int| 0 <= i < requested.len() ==> initialized.contains(#[trigger] requested[i])
}

/// The creation of one account: it is created, then each requested extension is
/// written once, then its base state is initialized, after which only steps that
/// work on an initialized account can follow.
#[derive(Debug, Clone)]
pub struct Provisioning {
    pub account: Address,
    pub base: BaseKind,
    pub requested: Vec<ExtensionKind>,
    pub initialized: Vec<ExtensionKind>,
    pub finalized: bool,
    pub steps: Vec<Step>,
}

/// Whether a step initializes a base state.
pub open spec fn is_base_step(s: Step) -> bool {
    s is InitializeMint || s is InitializeAccount
}

/// Whether no extension is written after a base state has been initialized.
pub open spec fn extensions_before_base(steps: Seq<Step>) -> bool {
    forall|i: int, j: int|
        0 <= i < j < steps.len() && is_base_step(#[trigger] steps[i]) ==> !(#[trigger] steps[j] is InitializeExtension)
}

/// Whether no step of `steps` initializes a base state.
pub open spec fn no_base_step(steps: Seq<Step>) -> bool {
    forall|i: int| 0 <= i < steps.len() ==> !is_base_step(#[trigger] steps[i])
}

/// Pushing a step keeps the order where it writes no extension, or where no base state
/// was initialized before it.
pub proof fn lemma_push_keeps_order(steps: Seq<Step>, s: Step)
    requires
        extensions_before_base(steps),
        !(s is InitializeExtension) || no_base_step(steps),
    ensures
        extensions_before_base(steps.push(s)),
{
    let t = steps.push(s);
    assert forall|i: int, j: int|
        0 <= i < j < t.len() && is_base_step(#[trigger] t[i]) implies !(#[trigger] t[j] is InitializeExtension) by {
        if j < steps.len() {
            assert(t[i] == steps[i]);
            assert(t[j] == steps[j]);
        } else {
            assert(t[i] == steps[i]);
        }
    }
}

/// Whether `after` is `before` with one more step and the same state otherwise.
pub open spec fn with_step(before: Provisioning, after: Provisioning, s: Step) -> bool {
    &&& after.account == before.account
    &&& after.base == before.base
    &&& after.requested@ == before.requested@
    &&& after.initialized@ == before.initialized@
    &&& after.finalized == before.finalized
    &&& after.steps@ == before.steps@.push(s)
}

impl Provisioning {
    /// The session's invariant: extensions come before the base state, and no base state
    /// is initialized until the session is finalized.
    pub open spec fn wf(&self) -> bool {
        &&& extensions_before_base(self.steps@)
        &&& !self.finalized ==> no_base_step(self.steps@)
    }

    /// Starts the creation of `target`, which must be unallocated: plans its creation
    /// with `space` bytes, owned by `owner_program`, funded for `funded_length` bytes.
    pub fn open(
        target: &AccountSnapshot,
        system_program: &Address,
        payer: &Address,
        owner_program: &Address,
        base: BaseKind,
        requested: Vec<ExtensionKind>,
        space: u64,
        funded_length: u64,
    ) -> (r: Result<Provisioning, ErrorCode>)
        ensures
            r is Ok <==> fresh_error(*target, *system_program) is None,
            r matches Err(e) ==> fresh_error(*target, *system_program) == Some(e),
            r matches Ok(p) ==> {
                &&& p.wf()
                &&& p.account == target.key
                &&& p.base == base
                &&& p.requested@ == requested@
                &&& p.initialized@.len() == 0
                &&& !p.finalized
                &&& p.steps@ == seq![
                    Step::CreateAccount {
                        payer: *payer,
                        account: target.key,
                        space,
                        funded_length,
                        owner: *owner_program,
                    },
                ]
            },
    {
        match check_unallocated(target, system_program) {
            Err(e) => Err(e),
            Ok(()) => {
                let mut steps: Vec<Step> = Vec::new();
                steps.push(
                    Step::CreateAccount {
                        payer: *payer,
                        account: target.key,
                        space,
                        funded_length,
                        owner: *owner_program,
                    },
                );
                proof {
                    assert(steps@ =~= seq![
                        Step::CreateAccount {
                            payer: *payer,
                            account: target.key,
                            space,
                            funded_length,
                            owner: *owner_program,
                        },
                    ]);
                }
                Ok(
                    Provisioning {
                        account: target.key,
                        base,
                        requested,
                        initialized: Vec::new(),
                        finalized: false,
                        steps,
                    },
                )
            },
        }
    }

    /// Writes one requested extension. Refused once the base state is initialized, for
    /// an extension that was not requested, and for one already written.
    pub fn initialize_extension(&mut self, init: ExtensionInit) -> (r: Result<(), ErrorCode>)
        requires
            old(self).wf(),
        ensures
            final(self).wf(),
            r is Ok <==> (!old(self).finalized && old(self).requested@.contains(init_kind(init))
                && !old(self).initialized@.contains(init_kind(init))),
            r matches Err(e) ==> e == ErrorCode::InvalidSequence && *final(self) == *old(self),
            r is Ok ==> {
                &&& final(self).account == old(self).account
                &&& final(self).base == old(self).base
                &&& final(self).requested@ == old(self).requested@
                &&& final(self).initialized@ == old(self).initialized@.push(init_kind(init))
                &&& !final(self).finalized
                &&& final(self).steps@ == old(self).steps@.push(
                    Step::InitializeExtension { account: old(self).account, init },
                )
            },
    {
        let kind = init.kind();
        if self.finalized || !has_kind(&self.requested, kind) || has_kind(&self.initialized, kind) {
            return Err(ErrorCode::InvalidSequence);
        }
        self.initialized.push(kind);
        self.steps.push(Step::InitializeExtension { account: self.account, init });
        Ok(())
    }

    /// Whether every requested extension has been written.
    pub fn extensions_complete(&self) -> (r: bool)
        ensures
            r == all_initialized(self.requested@, self.initialized@),
    {
        let mut i: usize = 0;
        while i < self.requested.len()
            invariant
                0 <= i <= self.requested.len(),
                all_initialized(self.requested@.subrange(0, i as int), self.initialized@),
            decreases self.requested.len() - i,
        {
            if !has_kind(&self.initialized, self.requested[i]) {
                return false;
            }
            proof {
                let next = self.requested@.subrange(0, i + 1);
                assert forall|j: int| 0 <= j < next.len() implies self.initialized@.contains(
                    #[trigger] next[j],
                ) by {
                    if j < i {
                        assert(next[j] == self.requested@.subrange(0, i as int)[j]);
                    }
                }
            }
            i = i + 1;
        }
        assert(self.requested@.subrange(0, self.requested.len() as int) =~= self.requested@);
        true
    }

    /// Initializes the base state of a mint. Refused unless every requested extension
    /// has been written first, and once the base state is initialized.
    pub fn finalize_mint(
        &mut self,
        decimals: u8,
        mint_authority: Address,
        freeze_authority: Option<Address>,
    ) -> (r: Result<(), ErrorCode>)
        requires
            old(self).wf(),
        ensures
            final(self).wf(),
            r is Ok <==> (!old(self).finalized && old(self).base == BaseKind::Mint
                && all_initialized(old(self).requested@, old(self).initialized@)),
            r matches Err(e) ==> e == ErrorCode::InvalidSequence && *final(self) == *old(self),
            r is Ok ==> {
                &&& final(self).account == old(self).account
                &&& final(self).base == old(self).base
                &&& final(self).requested@ == old(self).requested@
                &&& final(self).initialized@ == old(self).initialized@
                &&& final(self).finalized
                &&& final(self).steps@ == old(self).steps@.push(
                    Step::InitializeMint {
                        mint: old(self).account,
                        decimals,
                        mint_authority,
                        freeze_authority,
                    },
                )
            },
    {
        if self.finalized || self.base != BaseKind::Mint || !self.extensions_complete() {
            return Err(ErrorCode::InvalidSequence);
        }
        self.finalized = true;
        self.steps.push(
            Step::InitializeMint { mint: self.account, decimals, mint_authority, freeze_authority },
        );
        Ok(())
    }

    /// Initializes the base state of a token account of `mint` held by `owner`, under
    /// the same rule as `finalize_mint`.
    pub fn finalize_account(&mut self, mint: Address, owner: Address) -> (r: Result<(), ErrorCode>)
        requires
            old(self).wf(),
        ensures
            final(self).wf(),
            r is Ok <==> (!old(self).finalized && old(self).base == BaseKind::Account
                && all_initialized(old(self).requested@, old(self).initialized@)),
            r matches Err(e) ==> e == ErrorCode::InvalidSequence && *final(self) == *old(self),
            r is Ok ==> {
                &&& final(self).account == old(self).account
                &&& final(self).base == old(self).base
                &&& final(self).requested@ == old(self).requested@
                &&& final(self).initialized@ == old(self).initialized@
                &&& final(self).finalized
                &&& final(self).steps@ == old(self).steps@.push(
                    Step::InitializeAccount { account: old(self).account, mint, owner },
                )
            },
    {
        if self.finalized || self.base != BaseKind::Account || !self.extensions_complete() {
            return Err(ErrorCode::InvalidSequence);
        }
        self.finalized = true;
        self.steps.push(Step::InitializeAccount { account: self.account, mint, owner });
        Ok(())
    }

    /// Adds a step that works on the initialized account. Refused before the base state
    /// is initialized, and for a step that writes an extension or a base state.
    pub fn follow_with(&mut self, s: Step) -> (r: Result<(), ErrorCode>)
        requires
            old(self).wf(),
        ensures
            final(self).wf(),
            r is Ok <==> old(self).finalized && !(s is InitializeExtension) && !is_base_step(s),
            r matches Err(e) ==> e == ErrorCode::InvalidSequence && *final(self) == *old(self),
            r is Ok ==> with_step(*old(self), *final(self), s),
    {
        let allowed = match &s {
            Step::InitializeExtension { .. } => false,
            Step::InitializeMint { .. } => false,
            Step::InitializeAccount { .. } => false,
            _ => true,
        };
        if !self.finalized || !allowed {
            return Err(ErrorCode::InvalidSequence);
        }
        proof {
            lemma_push_keeps_order(self.steps@, s);
        }
        self.steps.push(s);
        Ok(())
    }

    /// Adds the creation of another account that the instruction needs, before the base
    /// state is initialized. Refused once it is.
    pub fn create_companion(
        &mut self,
        payer: Address,
        account: Address,
        space: u64,
        funded_length: u64,
        owner: Address,
    ) -> (r: Result<(), ErrorCode>)
        requires
            old(self).wf(),
        ensures
            final(self).wf(),
            r is Ok <==> !old(self).finalized,
            r matches Err(e) ==> e == ErrorCode::InvalidSequence && *final(self) == *old(self),
            r is Ok ==> with_step(
                *old(self),
                *final(self),
                Step::CreateAccount { payer, account, space, funded_length, owner },
            ),
    {
        if self.finalized {
            return Err(ErrorCode::InvalidSequence);
        }
        self.steps.push(Step::CreateAccount { payer, account, space, funded_length, owner });
        Ok(())
    }
}

/// While a requested extension is still unwritten, the base state cannot be initialized:
/// `finalize_mint` and `finalize_account` refuse exactly when this holds or the session
/// is finalized.
pub proof fn lemma_finalize_needs_extensions(p: Provisioning, k: ExtensionKind)
    requires
        p.requested@.contains(k),
        !p.initialized@.contains(k),
    ensures
        !all_initialized(p.requested@, p.initialized@),
{
    let i = choose|i: int| 0 <= i < p.requested@.len() && p.requested@[i] == k;
    assert(!p.initialized@.contains(p.requested@[i]));
}

/// The account that creation leaves: `space` zeroed bytes owned by `owner`, holding
/// `lamports`.
pub open spec fn created(target: AccountSnapshot, space: u64, owner: Address, lamports: u64) -> AccountSnapshot {
    AccountSnapshot { key: target.key, owner, lamports, data_len: space as usize }
}

/// Once an account has been created with some bytes, provisioning it again is refused
/// as already in use, whoever owns it.
pub proof fn lemma_second_provision_in_use(
    target: AccountSnapshot,
    system_program: Address,
    space: u64,
    owner: Address,
    lamports: u64,
)
    requires
        space > 0,
        space <= usize::MAX,
    ensures
        fresh_error(created(target, space, owner, lamports), system_program) == Some(
            ErrorCode::AlreadyInUse,
        ),
{
}

} // verus!
