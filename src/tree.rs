use vstd::prelude::*;
use crate::token::{Token, absorbs, tier_of};

verus! {

/// The mathematical value of a parse node: a tag and its ordered children.
pub struct Tree {
    pub tag: Token,
    pub kids: Seq<Tree>,
}

impl Tree {
    pub open spec fn leaf(tag: Token) -> Tree {
        Tree { tag, kids: Seq::empty() }
    }

    /// This tree with `c` appended as its last child.
    pub open spec fn with(self, c: Tree) -> Tree {
        Tree { tag: self.tag, kids: self.kids.push(c) }
    }

    /// A binary operator node: an operator tag over exactly two operands.
    pub open spec fn is_binary(self) -> bool {
        tier_of(self.tag) > 0 && self.kids.len() == 2
    }

    /// The rotation: `cur` (an operator holding its left operand) takes the
    /// first operand of `right` as its second child, and the completed `cur`
    /// becomes the first operand of `right`.
    pub open spec fn rotate(cur: Tree, right: Tree) -> Tree {
        Tree { tag: right.tag, kids: seq![cur.with(right.kids[0])] + right.kids.skip(1) }
    }

    /// How the node for operator `cur` takes the eagerly parsed operand `right`.
    pub open spec fn combine(cur: Tree, right: Tree) -> Tree {
        if right.is_binary() && absorbs(cur.tag, right.tag) {
            Tree::rotate(cur, right)
        } else {
            cur.with(right)
        }
    }
}

/// A node of the parse tree. What each child means depends on the production
/// that built the node.
#[derive(Debug, PartialEq, Eq)]
pub struct ParseNode {
    pub node: Token,
    pub children: Vec<ParseNode>,
}

/// The top-level declarations of a source unit, in source order.
#[derive(Debug, PartialEq, Eq)]
pub struct ParseTree {
    pub children: Vec<ParseNode>,
}

impl ParseNode {
    pub open spec fn view(self) -> Tree
        decreases self,
    {
        Tree {
            tag: self.node,
            kids: Seq::new(
                self.children.len() as nat,
                |i: int|
                    if 0 <= i < self.children.len() {
                        self.children[i].view()
                    } else {
                        Tree::leaf(Token::NoMatch)
                    },
            ),
        }
    }

    /// The node that stands for "nothing matched here".
    pub fn empty() -> (r: ParseNode)
        ensures
            r@ == Tree::leaf(Token::NoMatch),
    {
        Token::NoMatch.to_leaf()
    }

    /// Appends `child` as the last child.
    pub fn attach(&mut self, child: ParseNode)
        ensures
            final(self)@ == old(self)@.with(child@),
    {
        self.children.push(child);
        assert(final(self)@.kids =~= old(self)@.kids.push(child@));
    }

    /// Appends a leaf tagged `token` as the last child.
    pub fn add_child(&mut self, token: Token)
        ensures
            final(self)@ == old(self)@.with(Tree::leaf(token)),
    {
        self.attach(token.to_leaf());
    }

    /// Detaches and returns the first child.
    pub fn remove_left_child(&mut self) -> (r: ParseNode)
        requires
            old(self)@.kids.len() > 0,
        ensures
            r@ == old(self)@.kids[0],
            final(self)@ == (Tree { tag: old(self)@.tag, kids: old(self)@.kids.skip(1) }),
    {
        let r = self.children.remove(0);
        assert(final(self)@.kids =~= old(self)@.kids.skip(1));
        r
    }

    /// Rotates `self`, an operator node holding its left operand, under the
    /// binary node `other` (see `Tree::rotate`).
    pub fn merge_expressions(self, other: ParseNode) -> (r: ParseNode)
        requires
            other@.kids.len() == 2,
        ensures
            r@ == Tree::rotate(self@, other@),
    {
        let ghost left = self@;
        let ghost right = other@;
        let mut cur = self;
        let mut other = other;
        let first = other.remove_left_child();
        cur.attach(first);
        let second = other.remove_left_child();
        let mut result = ParseNode { node: other.node, children: Vec::new() };
        proof {
            assert(result@.kids =~= Seq::<Tree>::empty());
        }
        result.attach(cur);
        result.attach(second);
        assert(result@.kids =~= Tree::rotate(left, right).kids);
        result
    }
}

impl ParseTree {
    pub open spec fn view(self) -> Seq<Tree> {
        Seq::new(self.children.len() as nat, |i: int| self.children[i]@)
    }

    pub fn new() -> (r: ParseTree)
        ensures
            r@ == Seq::<Tree>::empty(),
    {
        let r = ParseTree { children: Vec::new() };
        assert(r@ =~= Seq::<Tree>::empty());
        r
    }

    /// Appends a top-level declaration.
    pub fn push(&mut self, declaration: ParseNode)
        ensures
            final(self)@ == old(self)@.push(declaration@),
    {
        self.children.push(declaration);
        assert(final(self)@ =~= old(self)@.push(declaration@));
    }
}

impl Token {
    /// A childless node tagged with this token.
    pub fn to_leaf(self) -> (r: ParseNode)
        ensures
            r@ == Tree::leaf(self),
    {
        let r = ParseNode { node: self, children: Vec::new() };
        assert(r@.kids =~= Seq::<Tree>::empty());
        r
    }
}

} // verus!
