use vstd::prelude::*;

verus! {

/// A node of a tree: a value and, where it has any, the nodes below it in
/// their order.
#[derive(Debug)]
pub struct Node<T> {
    pub value: T,
    pub children: Option<Vec<Node<T>>>,
}

/// The nodes directly below a node, none where it has no list of them.
pub open spec fn children_of<T>(n: Node<T>) -> Seq<Node<T>> {
    match n.children {
        Some(c) => c@,
        None => Seq::empty(),
    }
}

/// The values of a tree, each node before the nodes below it and those in
/// their order.
pub open spec fn preorder<T>(n: Node<T>) -> Seq<T>
    decreases n,
{
    match n.children {
        Some(c) => seq![n.value] + preorder_all(c@),
        None => seq![n.value],
    }
}

/// The values of the trees of a list, tree after tree.
pub open spec fn preorder_all<T>(nodes: Seq<Node<T>>) -> Seq<T>
    decreases nodes,
{
    if nodes.len() == 0 {
        Seq::empty()
    } else {
        preorder(nodes[0]) + preorder_all(nodes.subrange(1, nodes.len() as int))
    }
}

/// What a walk has before it that keeps its work on a stack, the next tree on
/// top, which is the stack's last place.
pub open spec fn visits<T>(stack: Seq<Node<T>>) -> Seq<T>
    decreases stack,
{
    if stack.len() == 0 {
        Seq::empty()
    } else {
        preorder(stack[stack.len() - 1]) + visits(stack.subrange(0, stack.len() - 1))
    }
}

/// The items of a list from the last to the first.
pub open spec fn backwards<T>(s: Seq<T>) -> Seq<T> {
    Seq::new(s.len(), |i: int| s[s.len() - 1 - i])
}

/// With the trees of a list on top of a stack, the first of them topmost, the
/// walk visits the list first and then what the stack held.
pub proof fn lemma_visits_children<T>(stack: Seq<Node<T>>, children: Seq<Node<T>>)
    ensures
        visits(stack + backwards(children)) == preorder_all(children) + visits(stack),
    decreases children.len(),
{
    if children.len() == 0 {
        assert(stack + backwards(children) =~= stack);
        assert(preorder_all(children) + visits(stack) =~= visits(stack));
    } else {
        let rest = children.subrange(1, children.len() as int);
        let all = stack + backwards(children);
        lemma_visits_children(stack, rest);
        assert(all[all.len() - 1] == children[0]);
        assert(all.subrange(0, all.len() - 1) =~= stack + backwards(rest));
        assert(preorder(children[0]) + (preorder_all(rest) + visits(stack)) =~= (preorder(
            children[0],
        ) + preorder_all(rest)) + visits(stack));
    }
}

/// Moves the trees of `children` onto the stack, the first of them topmost.
pub fn push_children<T>(stack: &mut Vec<Node<T>>, children: Vec<Node<T>>)
    ensures
        final(stack)@ == old(stack)@ + backwards(children@),
{
    let mut children = children;
    let ghost given = children@;
    let ghost below = stack@;
    assert(stack@ =~= below + backwards(given.skip(given.len() as int)));
    while children.len() > 0
        invariant
            children@ == given.take(children@.len() as int),
            children@.len() <= given.len(),
            stack@ == below + backwards(given.skip(children@.len() as int)),
        decreases children@.len(),
    {
        let ghost k = children@.len() as int;
        match children.pop() {
            Some(child) => {
                stack.push(child);
                proof {
                    assert(child == given[k - 1]);
                    assert(children@ =~= given.take(k - 1));
                    assert(stack@ =~= below + backwards(given.skip(k - 1)));
                }
            },
            None => {},
        }
    }
    assert(given.skip(0) =~= given);
}

} // verus!
