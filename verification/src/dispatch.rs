//! What the transaction pipeline says about an extrinsic, and the weight
//! limits of a block.

use vstd::prelude::*;
use crate::weight::Weight;

verus! {

/// Coarse category of an extrinsic. Each class has its own weight ceiling.
#[derive(Clone, Copy, Debug, PartialEq, Eq, Structural)]
pub enum DispatchClass {
    /// An ordinary transaction.
    Normal,
    /// A transaction that keeps the chain running and may use reserved weight.
    Operational,
    /// An extrinsic that a block must hold, such as an inherent.
    Mandatory,
}

/// What an extrinsic announces before it is dispatched.
#[derive(Clone, Copy, Debug, PartialEq, Eq, Structural)]
pub struct DispatchInfo {
    /// Weight of the call itself.
    pub call_weight: Weight,
    /// Weight of the extensions that run around the call.
    pub extension_weight: Weight,
    /// Class of the call.
    pub class: DispatchClass,
}

impl DispatchInfo {
    pub open spec fn spec_total_weight(&self) -> Weight {
        self.call_weight.saturating_add(self.extension_weight)
    }

    /// The announced weight of call and extensions together.
    #[verifier::when_used_as_spec(spec_total_weight)]
    pub fn total_weight(&self) -> (w: Weight)
        ensures
            w == self.spec_total_weight(),
    {
        self.call_weight.saturating_add(self.extension_weight)
    }
}

/// The weight that a block has consumed so far, by dispatch class.
#[derive(Clone, Copy, Debug, PartialEq, Eq, Structural)]
pub struct ConsumedWeight {
    pub normal: Weight,
    pub operational: Weight,
    pub mandatory: Weight,
}

impl ConsumedWeight {
    pub open spec fn spec_new() -> ConsumedWeight {
        ConsumedWeight {
            normal: Weight::zero(),
            operational: Weight::zero(),
            mandatory: Weight::zero(),
        }
    }

    pub open spec fn spec_get(&self, class: DispatchClass) -> Weight {
        match class {
            DispatchClass::Normal => self.normal,
            DispatchClass::Operational => self.operational,
            DispatchClass::Mandatory => self.mandatory,
        }
    }

    pub open spec fn spec_total(&self) -> Weight {
        self.normal.saturating_add(self.operational).saturating_add(self.mandatory)
    }

    /// The consumption after `weight` was added to `class`.
    pub open spec fn spec_accrue(self, weight: Weight, class: DispatchClass) -> ConsumedWeight {
        match class {
            DispatchClass::Normal => ConsumedWeight {
                normal: self.normal.saturating_add(weight),
                ..self
            },
            DispatchClass::Operational => ConsumedWeight {
                operational: self.operational.saturating_add(weight),
                ..self
            },
            DispatchClass::Mandatory => ConsumedWeight {
                mandatory: self.mandatory.saturating_add(weight),
                ..self
            },
        }
    }

    /// Nothing consumed in any class.
    #[verifier::when_used_as_spec(spec_new)]
    pub fn new() -> (c: ConsumedWeight)
        ensures
            c == ConsumedWeight::spec_new(),
    {
        ConsumedWeight {
            normal: Weight::zero(),
            operational: Weight::zero(),
            mandatory: Weight::zero(),
        }
    }

    /// The weight consumed by one class.
    #[verifier::when_used_as_spec(spec_get)]
    pub fn get(&self, class: DispatchClass) -> (w: Weight)
        ensures
            w == self.spec_get(class),
    {
        match class {
            DispatchClass::Normal => self.normal,
            DispatchClass::Operational => self.operational,
            DispatchClass::Mandatory => self.mandatory,
        }
    }

    /// The weight consumed by all classes together.
    #[verifier::when_used_as_spec(spec_total)]
    pub fn total(&self) -> (w: Weight)
        ensures
            w == self.spec_total(),
    {
        self.normal.saturating_add(self.operational).saturating_add(self.mandatory)
    }

    /// Adds `weight` to what `class` has consumed, without regard to any limit.
    pub fn accrue(&mut self, weight: Weight, class: DispatchClass)
        ensures
            *final(self) == old(self).spec_accrue(weight, class),
    {
        match class {
            DispatchClass::Normal => {
                self.normal = self.normal.saturating_add(weight);
            },
            DispatchClass::Operational => {
                self.operational = self.operational.saturating_add(weight);
            },
            DispatchClass::Mandatory => {
                self.mandatory = self.mandatory.saturating_add(weight);
            },
        }
    }
}

/// The weight limits of one dispatch class.
#[derive(Clone, Copy, Debug, PartialEq, Eq, Structural)]
pub struct WeightsPerClass {
    /// The most that all extrinsics of the class may consume in one block;
    /// `None` where the class has no ceiling of its own.
    pub max_total: Option<Weight>,
}

/// The weight limits of a block.
#[derive(Clone, Copy, Debug, PartialEq, Eq, Structural)]
pub struct BlockWeights {
    /// Weight that every block costs before any extrinsic runs.
    pub base_block: Weight,
    pub normal: WeightsPerClass,
    pub operational: WeightsPerClass,
    pub mandatory: WeightsPerClass,
}

impl BlockWeights {
    pub open spec fn spec_get(&self, class: DispatchClass) -> WeightsPerClass {
        match class {
            DispatchClass::Normal => self.normal,
            DispatchClass::Operational => self.operational,
            DispatchClass::Mandatory => self.mandatory,
        }
    }

    /// The limits of one class.
    #[verifier::when_used_as_spec(spec_get)]
    pub fn get(&self, class: DispatchClass) -> (w: WeightsPerClass)
        ensures
            w == self.spec_get(class),
    {
        match class {
            DispatchClass::Normal => self.normal,
            DispatchClass::Operational => self.operational,
            DispatchClass::Mandatory => self.mandatory,
        }
    }
}

/// Why a transaction is refused.
#[derive(Clone, Copy, Debug, PartialEq, Eq, Structural)]
pub enum InvalidTransaction {
    /// The transaction would use more of the block than is left for it.
    /// Transient: the same transaction may fit into a later block.
    ExhaustsResources,
}

/// The error that the transaction pipeline hands to its caller.
#[derive(Clone, Copy, Debug, PartialEq, Eq, Structural)]
pub enum TransactionValidityError {
    /// The transaction is invalid.
    Invalid(InvalidTransaction),
}

impl From<InvalidTransaction> for TransactionValidityError {
    fn from(e: InvalidTransaction) -> (r: TransactionValidityError)
        ensures
            r == TransactionValidityError::Invalid(e),
    {
        TransactionValidityError::Invalid(e)
    }
}

impl vstd::std_specs::convert::FromSpecImpl<InvalidTransaction> for TransactionValidityError {
    open spec fn obeys_from_spec() -> bool {
        true
    }

    open spec fn from_spec(e: InvalidTransaction) -> TransactionValidityError {
        TransactionValidityError::Invalid(e)
    }
}

} // verus!
