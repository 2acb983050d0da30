//! Tree values: the message format that the host runtime speaks.
//!
//! A tree value is either an atom, which carries a string of bytes, or a cell,
//! an ordered pair of tree values. A tuple `(a, b, c)` is the right-nested
//! cell `(a, (b, c))`, so the number of elements of a tuple is the number of
//! heads along its spine plus one.
//!
//! An atom is its bytes: two atoms are the same only if they carry the same
//! bytes in the same order. The atom zero carries none. A host that takes its
//! atoms for numbers hands them over least significant byte first and without
//! zero bytes at the end.

use vstd::prelude::*;

verus! {

/// The mathematical value of a tree: a byte string at each leaf, an ordered
/// pair at each inner node.
#[verifier::ext_equal]
pub enum Tree {
    Atom(Seq<u8>),
    Cell(Box<Tree>, Box<Tree>),
}

/// The atom that carries `bytes`.
pub open spec fn atom(bytes: Seq<u8>) -> Tree {
    Tree::Atom(bytes)
}

/// The cell of `head` and `tail`.
pub open spec fn pair(head: Tree, tail: Tree) -> Tree {
    Tree::Cell(Box::new(head), Box::new(tail))
}

/// The atom zero: no bytes at all.
pub open spec fn zero() -> Tree {
    Tree::Atom(Seq::empty())
}

impl Tree {
    /// The first element of a cell.
    pub open spec fn head(self) -> Tree
        recommends
            self is Cell,
    {
        *self->Cell_0
    }

    /// What follows the first element of a cell.
    pub open spec fn tail(self) -> Tree
        recommends
            self is Cell,
    {
        *self->Cell_1
    }

    /// The bytes of an atom.
    pub open spec fn bytes(self) -> Seq<u8>
        recommends
            self is Atom,
    {
        self->Atom_0
    }

    /// The number of elements when the tree is read as a tuple.
    pub open spec fn arity(self) -> nat
        decreases self,
    {
        match self {
            Tree::Atom(_) => 1,
            Tree::Cell(_, tail) => 1 + tail.arity(),
        }
    }
}

/// A tree value as the driver holds it in memory. It owns all of its nodes:
/// no two tree values share one.
#[derive(Debug, PartialEq, Eq)]
pub enum TreeValue {
    Atom(Vec<u8>),
    Cell(Box<TreeValue>, Box<TreeValue>),
}

impl TreeValue {
    /// The tree that this value stands for.
    pub open spec fn model(self) -> Tree
        decreases self,
    {
        match self {
            TreeValue::Atom(bytes) => Tree::Atom(bytes@),
            TreeValue::Cell(head, tail) => Tree::Cell(
                Box::new(head.model()),
                Box::new(tail.model()),
            ),
        }
    }

    /// An atom that carries `bytes`.
    pub fn atom(bytes: Vec<u8>) -> (r: TreeValue)
        ensures
            r@ == atom(bytes@),
    {
        TreeValue::Atom(bytes)
    }

    /// The atom zero.
    pub fn zero() -> (r: TreeValue)
        ensures
            r@ == zero(),
    {
        TreeValue::Atom(Vec::new())
    }

    /// The cell of `head` and `tail`.
    pub fn cell(head: TreeValue, tail: TreeValue) -> (r: TreeValue)
        ensures
            r@ == pair(head@, tail@),
    {
        TreeValue::Cell(Box::new(head), Box::new(tail))
    }

    /// The bytes of an atom; `None` for a cell.
    pub fn as_atom(&self) -> (r: Option<&Vec<u8>>)
        ensures
            match r {
                Some(bytes) => self@ == atom(bytes@),
                None => self@ is Cell,
            },
    {
        match self {
            TreeValue::Atom(bytes) => Some(bytes),
            TreeValue::Cell(_, _) => None,
        }
    }

    /// Head and tail of a cell; `None` for an atom.
    pub fn as_cell(&self) -> (r: Option<(&TreeValue, &TreeValue)>)
        ensures
            match r {
                Some((head, tail)) => self@ == pair(head@, tail@),
                None => self@ is Atom,
            },
    {
        match self {
            TreeValue::Atom(_) => None,
            TreeValue::Cell(head, tail) => Some((&**head, &**tail)),
        }
    }
}

impl View for TreeValue {
    type V = Tree;

    open spec fn view(&self) -> Tree {
        self.model()
    }
}

} // verus!
