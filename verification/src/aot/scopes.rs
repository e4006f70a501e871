//! The scopes that the code generator keeps while it walks functions:
//! error-handling mode, return type, whether the function can throw, and
//! the bindings of generic parameters.
use vstd::prelude::*;

use crate::aot::types::{clone_value_type, value_type_view, ErrorHandlingMode, SpecValueType, ValueType};
use crate::names::NameMap;
use crate::typechecker::{clone_type, type_view, SpecType, Type};

verus! {

/// The per-function stacks of the code generator.
#[derive(Debug)]
pub struct FunctionScopes {
    pub error_mode_stack: Vec<ErrorHandlingMode>,
    pub function_return_stack: Vec<ValueType>,
    pub function_can_throw_stack: Vec<bool>,
}

impl FunctionScopes {
    /// The stacks at the start of a module: errors propagate, and no
    /// function is being compiled.
    pub fn new() -> (s: Self)
        ensures
            s.error_mode_stack@ == seq![ErrorHandlingMode::Propagate],
            s.function_return_stack@.len() == 0,
            s.function_can_throw_stack@.len() == 0,
    {
        let mut error_mode_stack: Vec<ErrorHandlingMode> = Vec::new();
        error_mode_stack.push(ErrorHandlingMode::Propagate);
        FunctionScopes {
            error_mode_stack,
            function_return_stack: Vec::new(),
            function_can_throw_stack: Vec::new(),
        }
    }

    /// The innermost error-handling mode.
    pub fn current_error_mode(&self) -> (m: ErrorHandlingMode)
        requires
            self.error_mode_stack@.len() > 0,
        ensures
            m == self.error_mode_stack@.last(),
    {
        let n = self.error_mode_stack.len();
        self.error_mode_stack[n - 1]
    }

    /// Enters a region with the given error-handling mode.
    pub fn push_error_mode(&mut self, mode: ErrorHandlingMode)
        ensures
            final(self).error_mode_stack@ == old(self).error_mode_stack@.push(mode),
            final(self).function_return_stack@ == old(self).function_return_stack@,
            final(self).function_can_throw_stack@ == old(self).function_can_throw_stack@,
    {
        self.error_mode_stack.push(mode);
    }

    /// Leaves the innermost error-handling region.
    pub fn pop_error_mode(&mut self)
        requires
            old(self).error_mode_stack@.len() > 0,
        ensures
            final(self).error_mode_stack@ == old(self).error_mode_stack@.drop_last(),
            final(self).function_return_stack@ == old(self).function_return_stack@,
            final(self).function_can_throw_stack@ == old(self).function_can_throw_stack@,
    {
        self.error_mode_stack.pop();
    }

    /// Enters a function with the given return type.
    pub fn push_function_return(&mut self, ty: ValueType)
        ensures
            final(self).function_return_stack@ == old(self).function_return_stack@.push(ty),
            final(self).error_mode_stack@ == old(self).error_mode_stack@,
            final(self).function_can_throw_stack@ == old(self).function_can_throw_stack@,
    {
        self.function_return_stack.push(ty);
    }

    /// Leaves the innermost function's return type.
    pub fn pop_function_return(&mut self)
        requires
            old(self).function_return_stack@.len() > 0,
        ensures
            final(self).function_return_stack@ == old(self).function_return_stack@.drop_last(),
            final(self).error_mode_stack@ == old(self).error_mode_stack@,
            final(self).function_can_throw_stack@ == old(self).function_can_throw_stack@,
    {
        self.function_return_stack.pop();
    }

    /// The return type of the innermost function.
    pub fn current_function_return_type(&self) -> (t: &ValueType)
        requires
            self.function_return_stack@.len() > 0,
        ensures
            *t == self.function_return_stack@.last(),
    {
        let n = self.function_return_stack.len();
        &self.function_return_stack[n - 1]
    }

    /// Enters a function that can or cannot throw.
    pub fn push_function_can_throw(&mut self, can_throw: bool)
        ensures
            final(self).function_can_throw_stack@ == old(self).function_can_throw_stack@.push(
                can_throw,
            ),
            final(self).error_mode_stack@ == old(self).error_mode_stack@,
            final(self).function_return_stack@ == old(self).function_return_stack@,
    {
        self.function_can_throw_stack.push(can_throw);
    }

    /// Leaves the innermost function's throw flag.
    pub fn pop_function_can_throw(&mut self)
        requires
            old(self).function_can_throw_stack@.len() > 0,
        ensures
            final(self).function_can_throw_stack@
                == old(self).function_can_throw_stack@.drop_last(),
            final(self).error_mode_stack@ == old(self).error_mode_stack@,
            final(self).function_return_stack@ == old(self).function_return_stack@,
    {
        self.function_can_throw_stack.pop();
    }

    /// Whether the innermost function can throw; `false` outside functions.
    pub fn current_function_can_throw(&self) -> (b: bool)
        ensures
            b == (self.function_can_throw_stack@.len() > 0
                && self.function_can_throw_stack@.last()),
    {
        let n = self.function_can_throw_stack.len();
        if n == 0 {
            false
        } else {
            self.function_can_throw_stack[n - 1]
        }
    }
}

/// Entering a scope and leaving it again restores the stack, and while the
/// scope is open its value is the current one.
pub proof fn lemma_push_then_pop<T>(stack: Seq<T>, x: T)
    ensures
        stack.push(x).drop_last() == stack,
        stack.push(x).last() == x,
        stack.push(x).len() > 0,
{
    assert(stack.push(x).drop_last() =~= stack);
}

/// The bindings of generic parameters, innermost scope last; each binds a
/// name to its checked type and its lowered representation.
#[derive(Debug)]
pub struct GenericBindings {
    pub scopes: Vec<NameMap<(Type, ValueType)>>,
}

/// The binding of `name` in the innermost scope that binds it.
pub open spec fn generic_binding(scopes: Seq<NameMap<(Type, ValueType)>>, name: Seq<char>) -> Option<
    (SpecType, SpecValueType),
>
    decreases scopes.len(),
{
    if scopes.len() == 0 {
        None
    } else if scopes.last()@.dom().contains(name) {
        Some((type_view(scopes.last()@[name].0), value_type_view(scopes.last()@[name].1)))
    } else {
        generic_binding(scopes.drop_last(), name)
    }
}

/// A scope that is entered binds its names over the outer scopes, leaves
/// every other name as the outer scopes bind it, and leaving it gives the
/// outer bindings back.
pub proof fn lemma_scope_shadows(
    scopes: Seq<NameMap<(Type, ValueType)>>,
    scope: NameMap<(Type, ValueType)>,
    name: Seq<char>,
)
    ensures
        scope@.dom().contains(name) ==> generic_binding(scopes.push(scope), name) == Some(
            (type_view(scope@[name].0), value_type_view(scope@[name].1)),
        ),
        !scope@.dom().contains(name) ==> generic_binding(scopes.push(scope), name)
            == generic_binding(scopes, name),
        generic_binding(scopes.push(scope).drop_last(), name) == generic_binding(scopes, name),
{
    assert(scopes.push(scope).drop_last() =~= scopes);
    assert(scopes.push(scope).last() == scope);
}

impl GenericBindings {
    /// No generic parameter bound.
    pub fn new() -> (g: Self)
        ensures
            g.scopes@.len() == 0,
    {
        GenericBindings { scopes: Vec::new() }
    }

    /// Binds the parameters of one generic instantiation.
    pub fn push_scope(&mut self, scope: NameMap<(Type, ValueType)>)
        ensures
            final(self).scopes@ == old(self).scopes@.push(scope),
    {
        self.scopes.push(scope);
    }

    /// Drops the innermost bindings.
    pub fn pop_scope(&mut self)
        requires
            old(self).scopes@.len() > 0,
        ensures
            final(self).scopes@ == old(self).scopes@.drop_last(),
    {
        self.scopes.pop();
    }

    fn find_binding(&self, name: &str) -> (r: Option<(usize, usize)>)
        ensures
            match r {
                Some((s, i)) => {
                    &&& s < self.scopes@.len()
                    &&& i < self.scopes@[s as int].entries@.len()
                    &&& generic_binding(self.scopes@, name@) == Some(
                        (
                            type_view(self.scopes@[s as int].entries@[i as int].1.0),
                            value_type_view(self.scopes@[s as int].entries@[i as int].1.1),
                        ),
                    )
                },
                None => generic_binding(self.scopes@, name@) is None,
            },
    {
        let mut k = self.scopes.len();
        assert(self.scopes@.take(k as int) =~= self.scopes@);
        while k > 0
            invariant
                k <= self.scopes@.len(),
                generic_binding(self.scopes@, name@) == generic_binding(
                    self.scopes@.take(k as int),
                    name@,
                ),
            decreases k,
        {
            let scope = &self.scopes[k - 1];
            let ghost pre = self.scopes@.take(k as int);
            proof {
                assert(pre.last() == self.scopes@[k - 1]);
                assert(pre.drop_last() =~= self.scopes@.take(k - 1));
            }
            match scope.index_of(name) {
                Some(i) => {
                    proof {
                        crate::names::lemma_entries_map_first(scope.entries@, name@, i as int);
                    }
                    return Some((k - 1, i));
                },
                None => {},
            }
            k = k - 1;
        }
        proof {
            assert(self.scopes@.take(0) =~= Seq::<NameMap<(Type, ValueType)>>::empty());
        }
        None
    }

    /// The checked type bound to a generic parameter, innermost scope first.
    pub fn lookup_generic_type(&self, name: &str) -> (r: Option<Type>)
        ensures
            match r {
                Some(t) => generic_binding(self.scopes@, name@) matches Some(b) && b.0 == t@,
                None => generic_binding(self.scopes@, name@) is None,
            },
    {
        match self.find_binding(name) {
            Some((s, i)) => Some(clone_type(&self.scopes[s].entries[i].1.0)),
            None => None,
        }
    }

    /// The representation bound to a generic parameter, innermost scope
    /// first.
    pub fn lookup_generic_value_type(&self, name: &str) -> (r: Option<ValueType>)
        ensures
            match r {
                Some(t) => generic_binding(self.scopes@, name@) matches Some(b) && b.1 == t@,
                None => generic_binding(self.scopes@, name@) is None,
            },
    {
        match self.find_binding(name) {
            Some((s, i)) => Some(clone_value_type(&self.scopes[s].entries[i].1.1)),
            None => None,
        }
    }
}

} // verus!
