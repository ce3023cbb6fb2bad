use std::rc::Rc;
use vstd::prelude::*;

verus! {

/// A continuation, by its position in the program that is being run.
#[derive(Debug, Clone, Copy, PartialEq, Eq, Structural)]
pub struct Code(pub usize);

/// A runtime value.
#[derive(Debug, PartialEq, Eq)]
pub enum Value {
    /// A machine integer.
    Integer(i32),
    /// A continuation together with the environment it was created in.
    Closure { code: Code, env: Rc<Vec<Value>> },
    /// A constructor applied to its fields; `vec[0]` is the field that was
    /// pushed first.
    Block { tag: u8, vec: Vec<Value> },
    /// The marker that separates the arguments of one call from what lies
    /// beneath them on the operand stack.
    Epsilon,
}

/// What a [`Value`] is, with sequences in place of vectors and of shared
/// environments.
#[verifier::ext_equal]
pub enum ValueView {
    Integer(i32),
    Closure { code: Code, env: Seq<ValueView> },
    Block { tag: u8, vec: Seq<ValueView> },
    Epsilon,
}

impl View for Value {
    type V = ValueView;

    open spec fn view(&self) -> ValueView
        decreases self, 0int,
    {
        match self {
            Value::Integer(i) => ValueView::Integer(*i),
            Value::Closure { code, env } => ValueView::Closure { code: *code, env: views(env@) },
            Value::Block { tag, vec } => ValueView::Block { tag: *tag, vec: views(vec@) },
            Value::Epsilon => ValueView::Epsilon,
        }
    }
}

/// The views of a sequence of values, element by element.
pub open spec fn views(s: Seq<Value>) -> Seq<ValueView>
    decreases s, 1int,
{
    // The index is tested so that the definition is seen to terminate; a
    // sequence is never read outside its length.
    Seq::new(s.len(), |i: int| if 0 <= i < s.len() { s[i]@ } else { ValueView::Epsilon })
}

/// Pushing a value and then taking views is taking views and then pushing
/// the value's view.
pub proof fn lemma_views_push(s: Seq<Value>, v: Value)
    ensures
        views(s.push(v)) == views(s).push(v@),
{
    assert(views(s.push(v)) =~= views(s).push(v@));
}

/// Taking views commutes with cutting a sequence.
pub proof fn lemma_views_subrange(s: Seq<Value>, i: int, j: int)
    requires
        0 <= i <= j <= s.len(),
    ensures
        views(s.subrange(i, j)) == views(s).subrange(i, j),
{
    assert(views(s.subrange(i, j)) =~= views(s).subrange(i, j));
}

impl Clone for Value {
    /// A copy with the same content. A closure's environment is shared, not
    /// copied; a block's fields are copied one by one.
    fn clone(&self) -> (r: Value)
        ensures
            r@ == self@,
        decreases self,
    {
        match self {
            Value::Integer(i) => Value::Integer(*i),
            Value::Closure { code, env } => Value::Closure { code: *code, env: Rc::clone(env) },
            Value::Block { tag, vec } => Value::Block { tag: *tag, vec: clone_values(vec) },
            Value::Epsilon => Value::Epsilon,
        }
    }
}

/// A fresh vector with the same content as `values`.
pub fn clone_values(values: &Vec<Value>) -> (r: Vec<Value>)
    ensures
        views(r@) == views(values@),
    decreases values,
{
    let mut out: Vec<Value> = Vec::new();
    let mut i: usize = 0;
    while i < values.len()
        invariant
            i <= values.len(),
            out.len() == i,
            forall|j: int| 0 <= j < i ==> out[j]@ == values[j]@,
        decreases values.len() - i,
    {
        out.push(values[i].clone());
        i += 1;
    }
    assert(views(out@) =~= views(values@));
    out
}

} // verus!
