//! The dynamic constraint scheduler: a cache of compiled constraint blocks
//! and the one block that validation currently runs against.
//!
//! Blocks are immutable and shared. A policy update never edits a block: it
//! puts a new one in the cache, and only `switch_active_set` makes a cached
//! block the active one.

use std::collections::HashMap;
use std::sync::Arc;
use vstd::prelude::*;

verus! {

/// The data that an integrity sweep validates.
pub type CsrSnapshot = Vec<u8>;

/// Identifies a constraint set.
pub type ConstraintSetId = u64;

/// Definition text that the scheduler compiles at start-up.
pub const ACVM_DEFINITION: &'static str = "placeholder_acvm_def";

/// Policy text that the scheduler compiles at start-up.
pub const GAX_POLICIES: &'static str = "placeholder_gax_policies";

/// Version of the block that the scheduler compiles at start-up.
pub const INITIAL_COMPILATION_VERSION: u64 = 1;

/// Input data violates the active policy.
#[derive(Debug, Clone)]
pub struct PolicyViolation(pub String);

/// An input-integrity policy in compiled form.
#[derive(Debug, Clone, Copy)]
pub struct IntegrityPolicy;

/// A boundary check in compiled form.
#[derive(Debug, Clone, Copy)]
pub struct BoundaryCheckDefinition {
    policy_id: u16,
    target_offset: u64,
    expected_range: (u64, u64),
}

/// The compiled form of one constraint set. Version 0 marks a block that
/// was never compiled; validation against it fails.
#[derive(Debug, Clone)]
pub struct CompiledConstraintBlock {
    pub compilation_version: u64,
    pub gax_ii_boundary_checks: Vec<BoundaryCheckDefinition>,
    pub gax_iii_input_integrity: Vec<IntegrityPolicy>,
}

impl CompiledConstraintBlock {
    /// The block carries `version` and holds no definitions.
    pub open spec fn is_bare(&self, version: u64) -> bool {
        &&& self.compilation_version == version
        &&& self.gax_ii_boundary_checks@.len() == 0
        &&& self.gax_iii_input_integrity@.len() == 0
    }
}

/// Why a constraint operation failed.
#[derive(Debug)]
pub enum ConstraintError {
    /// The input could not be compiled.
    CompilationFailed(String),
    /// The requested set is not in the cache.
    MissingActiveSet,
    /// The context that ran a compile job broke down.
    ExternalDependencyFailure(String),
    /// The scheduler's own state is inconsistent.
    SchedulerIntegrityFailure(String),
}

/// What a `ConstraintError` holds.
pub enum ConstraintFailure {
    CompilationFailed(Seq<char>),
    MissingActiveSet,
    ExternalDependencyFailure(Seq<char>),
    SchedulerIntegrityFailure(Seq<char>),
}

impl View for ConstraintError {
    type V = ConstraintFailure;

    open spec fn view(&self) -> ConstraintFailure {
        match self {
            ConstraintError::CompilationFailed(text) => ConstraintFailure::CompilationFailed(
                text@,
            ),
            ConstraintError::MissingActiveSet => ConstraintFailure::MissingActiveSet,
            ConstraintError::ExternalDependencyFailure(text) => {
                ConstraintFailure::ExternalDependencyFailure(text@)
            },
            ConstraintError::SchedulerIntegrityFailure(text) => {
                ConstraintFailure::SchedulerIntegrityFailure(text@)
            },
        }
    }
}

/// `Arc::clone` of std: a second handle to the same shared block.
#[verifier::external_body]
fn share_block(block: &Arc<CompiledConstraintBlock>) -> (shared: Arc<CompiledConstraintBlock>)
    ensures
        shared == *block,
{
    Arc::clone(block)
}

/// What a scheduler holds: the cached blocks by set, the active set, and the
/// block that readers see.
pub struct SchedulerView {
    pub active_set_id: ConstraintSetId,
    pub cache: Map<ConstraintSetId, CompiledConstraintBlock>,
    pub active_block: CompiledConstraintBlock,
}

impl SchedulerView {
    /// The active set is one of the cached sets. `initialize` establishes
    /// this and every operation keeps it.
    pub open spec fn well_formed(self) -> bool {
        self.cache.dom().contains(self.active_set_id)
    }
}

/// The scheduler. Readers get the active block through one shared handle;
/// writers insert into the cache or republish the handle.
pub struct DynamicConstraintScheduler {
    active_set_id: ConstraintSetId,
    constraint_cache: HashMap<ConstraintSetId, Arc<CompiledConstraintBlock>>,
    active_block_ref: Arc<CompiledConstraintBlock>,
}

impl View for DynamicConstraintScheduler {
    type V = SchedulerView;

    closed spec fn view(&self) -> SchedulerView {
        SchedulerView {
            active_set_id: self.active_set_id,
            cache: Map::new(
                |id: ConstraintSetId| self.constraint_cache@.dom().contains(id),
                |id: ConstraintSetId| *self.constraint_cache@[id],
            ),
            active_block: *self.active_block_ref,
        }
    }
}

impl DynamicConstraintScheduler {
    /// Compiles a definition and its policies into a block of the given
    /// version. Either text being empty is the one way to fail.
    pub fn compile_constraints(acvm_def: &str, gax_policies: &str, version: u64) -> (r: Result<
        CompiledConstraintBlock,
        ConstraintError,
    >)
        ensures
            acvm_def@.len() == 0 || gax_policies@.len() == 0 ==> (r matches Err(e) && e@
                == ConstraintFailure::CompilationFailed(
                "Input definitions are empty or invalid."@,
            )),
            acvm_def@.len() != 0 && gax_policies@.len() != 0 ==> (r matches Ok(block)
                && block.is_bare(version)),
    {
        if acvm_def.is_empty() || gax_policies.is_empty() {
            return Err(
                ConstraintError::CompilationFailed(
                    String::from_str("Input definitions are empty or invalid."),
                ),
            );
        }
        Ok(
            CompiledConstraintBlock {
                compilation_version: version,
                gax_ii_boundary_checks: Vec::new(),
                gax_iii_input_integrity: Vec::new(),
            },
        )
    }

    /// A scheduler whose only cached set is `current_state_id`, compiled from
    /// the start-up texts at the initial version, and active.
    pub fn initialize(current_state_id: ConstraintSetId) -> (r: Result<Self, ConstraintError>)
        ensures
            r matches Ok(scheduler) && scheduler@.well_formed() && scheduler@.active_set_id
                == current_state_id && scheduler@.cache.dom() == set![current_state_id]
                && scheduler@.cache[current_state_id] == scheduler@.active_block
                && scheduler@.active_block.is_bare(INITIAL_COMPILATION_VERSION),
    {
        proof {
            reveal_strlit("placeholder_acvm_def");
            reveal_strlit("placeholder_gax_policies");
        }
        let initial_block = match Self::compile_constraints(
            ACVM_DEFINITION,
            GAX_POLICIES,
            INITIAL_COMPILATION_VERSION,
        ) {
            Ok(block) => block,
            Err(e) => {
                return Err(e);
            },
        };
        let initial_arc = Arc::new(initial_block);

        let mut cache: HashMap<ConstraintSetId, Arc<CompiledConstraintBlock>> = HashMap::new();
        cache.insert(current_state_id, share_block(&initial_arc));

        let scheduler = DynamicConstraintScheduler {
            active_set_id: current_state_id,
            constraint_cache: cache,
            active_block_ref: initial_arc,
        };
        assert(scheduler@.cache.dom() =~= set![current_state_id]);
        Ok(scheduler)
    }

    /// The block that validation runs against. One dereference of the shared
    /// handle: no lookup, no allocation.
    #[inline]
    pub fn active_constraints(&self) -> (block: &CompiledConstraintBlock)
        ensures
            *block == self@.active_block,
    {
        &self.active_block_ref
    }

    /// Validates data against the active block. A block of version 0 was
    /// never compiled, and the sweep fails closed on it.
    pub fn execute_s02_s06_integrity_sweep(&self, _snapshot: &CsrSnapshot) -> (r: Result<
        (),
        PolicyViolation,
    >)
        ensures
            self@.active_block.compilation_version == 0 ==> (r matches Err(violation)
                && violation.0@ == "Constraint integrity check failed (Version 0)."@),
            self@.active_block.compilation_version != 0 ==> r is Ok,
    {
        let constraints = self.active_constraints();
        if constraints.compilation_version == 0 {
            return Err(
                PolicyViolation(String::from_str("Constraint integrity check failed (Version 0).")),
            );
        }
        Ok(())
    }

    /// Makes a cached set the active one. An id that is not cached is
    /// refused and nothing changes.
    pub fn switch_active_set(&mut self, new_set_id: ConstraintSetId) -> (r: Result<
        (),
        ConstraintError,
    >)
        ensures
            old(self)@.cache.dom().contains(new_set_id) ==> r is Ok && final(self)@ == (
            SchedulerView {
                active_set_id: new_set_id,
                active_block: old(self)@.cache[new_set_id],
                cache: old(self)@.cache,
            }),
            !old(self)@.cache.dom().contains(new_set_id) ==> (r matches Err(
                ConstraintError::MissingActiveSet,
            )) && final(self)@ == old(self)@,
            old(self)@.well_formed() ==> final(self)@.well_formed(),
    {
        broadcast use vstd::std_specs::hash::group_hash_axioms;

        match self.constraint_cache.get(&new_set_id) {
            Some(arc_block) => {
                let shared = share_block(arc_block);
                self.active_block_ref = shared;
                self.active_set_id = new_set_id;
                assert(final(self)@.cache =~= old(self)@.cache);
                Ok(())
            },
            None => Err(ConstraintError::MissingActiveSet),
        }
    }

    /// Puts a compiled block into the cache under `set_id`, in place of any
    /// block cached there before. The active set and the block that readers
    /// see stay as they are.
    pub fn inject_compiled_set(&mut self, set_id: ConstraintSetId, block: CompiledConstraintBlock)
        ensures
            final(self)@ == (SchedulerView {
                cache: old(self)@.cache.insert(set_id, block),
                ..old(self)@
            }),
            old(self)@.well_formed() ==> final(self)@.well_formed(),
    {
        broadcast use vstd::std_specs::hash::group_hash_axioms;

        let arc_block = Arc::new(block);
        self.constraint_cache.insert(set_id, arc_block);
        assert(final(self)@.cache =~= old(self)@.cache.insert(set_id, block));
    }
}

} // verus!
