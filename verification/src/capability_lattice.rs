//! Escalation paths between capabilities.
//!
//! Where the permissions answer what an agent may use right now, the lattice
//! answers which explicit chain of approvals leads from one capability to
//! another. At present only the identity is such a chain.

use vstd::prelude::*;
use vstd::string::StringExecFns;

use crate::permissions;
use crate::permissions::Capability;
use crate::table::Key;
use crate::table::Table;

verus! {

impl Key for Capability {
    type Id = Capability;

    open spec fn id(&self) -> Capability {
        *self
    }

    fn same(&self, other: &Self) -> (r: bool) {
        *self == *other
    }
}

/// A node in the capability lattice.
#[derive(Debug)]
pub enum LatticeNode {
    /// A leaf capability.
    Capability(Capability),
    /// Conjunction of two sub-nodes.
    Composite(Box<LatticeNode>, Box<LatticeNode>),
}

/// The capabilities at the leaves of a node, left to right.
pub open spec fn leaves(n: LatticeNode) -> Seq<Capability>
    decreases n,
{
    match n {
        LatticeNode::Capability(c) => seq![c],
        LatticeNode::Composite(a, b) => leaves(*a) + leaves(*b),
    }
}

impl LatticeNode {
    /// The capabilities at the leaves, left to right.
    pub fn flatten(&self) -> (v: Vec<Capability>)
        ensures
            v@ == leaves(*self),
        decreases *self,
    {
        match self {
            LatticeNode::Capability(c) => {
                let mut v: Vec<Capability> = Vec::new();
                v.push(*c);
                assert(v@ =~= seq![*c]);
                v
            },
            LatticeNode::Composite(a, b) => {
                let mut v = a.flatten();
                let mut w = b.flatten();
                v.append(&mut w);
                v
            },
        }
    }
}

/// An explicit chain of capabilities.
#[derive(Clone, Debug)]
pub struct EscalationPath {
    /// Ordered list of capabilities, from the first to the last.
    pub steps: Vec<Capability>,
    /// Whether HAL approval is required at any step.
    pub requires_approval: bool,
    /// Human-readable summary, suitable for an audit-log entry.
    pub summary: String,
}

/// Errors returned by lattice operations.
#[derive(Clone, Copy, Debug, PartialEq, Eq, Structural)]
pub enum LatticeError {
    /// The two capabilities are not comparable in the lattice.
    NotComparable {
        /// The capability held.
        from: Capability,
        /// The capability wanted.
        to: Capability,
    },
    /// The escalation path would cross a forbidden boundary.
    ForbiddenBoundary(Capability),
    /// The requested escalation is not in the pre-approved path table.
    NoApprovedPath {
        /// The capability held.
        from: Capability,
        /// The capability wanted.
        to: Capability,
    },
}

/// The escalation-path capability lattice.
#[derive(Debug)]
pub struct CapabilityLattice {
    /// The nodes.
    nodes: Vec<LatticeNode>,
    /// Approved steps by capability: where they lead and whether they require
    /// approval.
    edges: Table<Capability, Vec<(Capability, bool)>>,
}

impl Default for CapabilityLattice {
    fn default() -> (l: CapabilityLattice)
        ensures
            l.node_list()@ == Seq::<LatticeNode>::empty(),
            l.edge_table()@ == Map::<Capability, Vec<(Capability, bool)>>::empty(),
    {
        CapabilityLattice { nodes: Vec::new(), edges: Table::new() }
    }
}

impl CapabilityLattice {
    /// The nodes.
    pub closed spec fn node_list(&self) -> Vec<LatticeNode> {
        self.nodes
    }

    /// The approved steps by the capability they start from.
    pub closed spec fn edge_table(&self) -> Table<Capability, Vec<(Capability, bool)>> {
        self.edges
    }

    /// Whether holding a capability implies another: only itself, whatever
    /// steps are approved.
    pub open spec fn implied(&self, have: Capability, want: Capability) -> bool {
        have == want
    }

    /// The approved steps from a capability.
    pub open spec fn steps_from(&self, c: Capability) -> Seq<(Capability, bool)> {
        if self.edge_table()@.dom().contains(c) {
            self.edge_table()@[c]@
        } else {
            Seq::empty()
        }
    }

    /// An empty lattice.
    pub fn new() -> (l: CapabilityLattice)
        ensures
            l.node_list()@ == Seq::<LatticeNode>::empty(),
            l.edge_table()@ == Map::<Capability, Vec<(Capability, bool)>>::empty(),
    {
        CapabilityLattice::default()
    }

    /// The lattice with the default steps: none, since every capability implies
    /// itself anyway.
    pub fn with_defaults() -> (l: CapabilityLattice)
        ensures
            l.node_list()@ == Seq::<LatticeNode>::empty(),
            l.edge_table()@ == Map::<Capability, Vec<(Capability, bool)>>::empty(),
            forall|a: Capability, b: Capability| #[trigger] l.implied(a, b) <==> a == b,
    {
        CapabilityLattice::new()
    }

    /// Whether holding a capability implies another: it implies itself, and what
    /// is implied by what it implies.
    pub fn implies(&self, have: Capability, want: Capability) -> (r: bool)
        ensures
            r == self.implied(have, want),
            have == want ==> r,
            forall|via: Capability|
                #![trigger self.implied(have, via)]
                self.implied(have, via) && self.implied(via, want) ==> r,
    {
        have == want
    }

    /// The explicit escalation path from one capability to another.
    pub fn escalate(&self, from: Capability, to: Capability) -> (r: Result<
        EscalationPath,
        LatticeError,
    >)
        ensures
            match r {
                Ok(p) => {
                    &&& from == to
                    &&& from != Capability::ModifyHal
                    &&& p.steps@ == seq![from]
                    &&& !p.requires_approval
                    &&& p.summary@ == "identity escalation: "@ + permissions::capability_name(from)
                },
                Err(e) => e == (if to == Capability::ModifyHal || from == Capability::ModifyHal {
                    LatticeError::ForbiddenBoundary(Capability::ModifyHal)
                } else {
                    LatticeError::NoApprovedPath { from, to }
                }) && (from != to || from == Capability::ModifyHal),
            },
    {
        if to == Capability::ModifyHal || from == Capability::ModifyHal {
            return Err(LatticeError::ForbiddenBoundary(Capability::ModifyHal));
        }
        if from == to {
            let mut summary = String::from_str("identity escalation: ");
            summary.append(from.name());
            let mut steps: Vec<Capability> = Vec::new();
            steps.push(from);
            assert(steps@ =~= seq![from]);
            return Ok(EscalationPath { steps, requires_approval: false, summary });
        }
        Err(LatticeError::NoApprovedPath { from, to })
    }

    /// Installs an approved step.
    pub fn add_edge(&mut self, from: Capability, to: Capability, requires_approval: bool)
        ensures
            final(self).steps_from(from) == old(self).steps_from(from).push(
                (to, requires_approval),
            ),
            forall|c: Capability|
                c != from ==> #[trigger] final(self).steps_from(c) == old(self).steps_from(c),
            final(self).edge_table()@.dom() == old(self).edge_table()@.dom().insert(from),
            final(self).node_list() == old(self).node_list(),
    {
        let mut list = match self.edges.remove(&from) {
            Some(l) => l,
            None => Vec::new(),
        };
        assert(list@ =~= old(self).steps_from(from));
        list.push((to, requires_approval));
        self.edges.insert(from, list);
        assert(self.edges@.dom() =~= old(self).edges@.dom().insert(from));
    }

    /// The table of approved steps.
    pub fn edges(&self) -> (r: &Table<Capability, Vec<(Capability, bool)>>)
        ensures
            *r == self.edge_table(),
    {
        &self.edges
    }

    /// The nodes.
    pub fn nodes(&self) -> (r: &[LatticeNode])
        ensures
            r@ == self.node_list()@,
    {
        self.nodes.as_slice()
    }
}

/// Implication in any lattice is reflexive, transitive and antisymmetric: a
/// partial order. No two different capabilities are comparable.
pub proof fn implication_is_a_partial_order(
    l: CapabilityLattice,
    a: Capability,
    b: Capability,
    c: Capability,
)
    ensures
        l.implied(a, a),
        l.implied(a, b) && l.implied(b, c) ==> l.implied(a, c),
        l.implied(a, b) && l.implied(b, a) ==> a == b,
        l.implied(a, b) <==> a == b,
{
}

/// A conjunction has the leaves of both its parts.
pub proof fn composite_has_both(a: LatticeNode, b: LatticeNode, c: Capability)
    ensures
        leaves(LatticeNode::Composite(Box::new(a), Box::new(b))).contains(c) <==> leaves(
            a,
        ).contains(c) || leaves(b).contains(c),
{
    let n = LatticeNode::Composite(Box::new(a), Box::new(b));
    let la = leaves(a);
    let lb = leaves(b);
    assert(leaves(n) == la + lb);
    if la.contains(c) {
        let i = choose|i: int| 0 <= i < la.len() && la[i] == c;
        assert((la + lb)[i] == c);
    }
    if lb.contains(c) {
        let i = choose|i: int| 0 <= i < lb.len() && lb[i] == c;
        assert((la + lb)[la.len() + i] == c);
    }
    if (la + lb).contains(c) {
        let i = choose|i: int| 0 <= i < (la + lb).len() && (la + lb)[i] == c;
        if i >= la.len() {
            assert(lb[i - la.len()] == c);
        } else {
            assert(la[i] == c);
        }
    }
}

} // verus!
