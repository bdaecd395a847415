use vstd::prelude::*;
use crate::model::{opt_duplicate, opt_eq, opt_same, opt_view, vec_duplicate, vec_same, vec_view, SameAs};

verus! {

/// How ready the evidence is for comparing and selecting a mechanism.
pub struct CurrentContractReadiness {
    pub mechanism_comparison_readiness: String,
    pub mechanism_selection_readiness: String,
    pub selection_status: String,
    pub package: String,
    pub note: String,
}

/// The mathematical value of a [`CurrentContractReadiness`].
pub struct CurrentContractReadinessView {
    pub mechanism_comparison_readiness: Seq<char>,
    pub mechanism_selection_readiness: Seq<char>,
    pub selection_status: Seq<char>,
    pub package: Seq<char>,
    pub note: Seq<char>,
}

impl View for CurrentContractReadiness {
    type V = CurrentContractReadinessView;

    open spec fn view(&self) -> CurrentContractReadinessView {
        CurrentContractReadinessView {
            mechanism_comparison_readiness: self.mechanism_comparison_readiness@,
            mechanism_selection_readiness: self.mechanism_selection_readiness@,
            selection_status: self.selection_status@,
            package: self.package@,
            note: self.note@,
        }
    }
}

impl Clone for CurrentContractReadiness {
    fn clone(&self) -> (r: Self)
        ensures
            r@ == self@,
    {
        CurrentContractReadiness {
            mechanism_comparison_readiness: self.mechanism_comparison_readiness.clone(),
            mechanism_selection_readiness: self.mechanism_selection_readiness.clone(),
            selection_status: self.selection_status.clone(),
            package: self.package.clone(),
            note: self.note.clone(),
        }
    }
}

impl SameAs for CurrentContractReadiness {
    fn duplicate(&self) -> (r: Self) {
        self.clone()
    }

    fn same_as(&self, other: &Self) -> (r: bool) {
        self.mechanism_comparison_readiness.same_as(&other.mechanism_comparison_readiness)
            && self.mechanism_selection_readiness.same_as(&other.mechanism_selection_readiness)
            && self.selection_status.same_as(&other.selection_status)
            && self.package.same_as(&other.package)
            && self.note.same_as(&other.note)
    }
}

/// The readiness this contract package declares.
pub open spec fn readiness_spec() -> CurrentContractReadinessView {
    CurrentContractReadinessView {
        mechanism_comparison_readiness: "not_ready"@,
        mechanism_selection_readiness: "not_ready"@,
        selection_status: "none"@,
        package: "VP-GATE4-EVIDENCE-COMPLETION-01A"@,
        note: "Contract package only; equivalent candidate execution not completed"@,
    }
}

/// The readiness this contract package declares.
pub fn current_contract_readiness() -> (r: CurrentContractReadiness)
    ensures
        r@ == readiness_spec(),
{
    CurrentContractReadiness {
        mechanism_comparison_readiness: String::from_str("not_ready"),
        mechanism_selection_readiness: String::from_str("not_ready"),
        selection_status: String::from_str("none"),
        package: String::from_str("VP-GATE4-EVIDENCE-COMPLETION-01A"),
        note: String::from_str("Contract package only; equivalent candidate execution not completed"),
    }
}


} // verus!
