//! Facts about function bodies that decide how a function is emitted: how
//! many statements it holds (small functions are always inlined) and which
//! names it assigns to (those parameters need a mutable slot).
use vstd::prelude::*;

use crate::ast::{
    CallArgument, DictEntry, Expression, ExpressionKind, FunctionStatement,
    InterpolatedStringPart, LambdaBody, Statement, VarBinding,
};
use crate::text::str_eq;

verus! {

/// The number of statements in `stmts`, nested blocks of conditionals and
/// loops included.
pub open spec fn statement_count(stmts: Seq<Statement>) -> nat
    decreases stmts,
{
    if stmts.len() == 0 {
        0
    } else {
        statement_count(stmts.drop_last()) + 1 + nested_statement_count(stmts.last())
    }
}

/// The number of statements nested inside one statement.
pub open spec fn nested_statement_count(s: Statement) -> nat
    decreases s,
{
    match s {
        Statement::Conditional(c) => statement_count(c.consequent.statements@) + match c.alternative {
            Some(b) => statement_count(b.statements@),
            None => 0,
        },
        Statement::Loop(l) => statement_count(l.body.statements@),
        _ => 0,
    }
}

/// A function body is inlined when it has fewer than this many statements.
pub const SMALL_FUNCTION_LIMIT: usize = 20;

proof fn lemma_statement_count_prefix(s: Seq<Statement>, i: int)
    requires
        0 <= i <= s.len(),
    ensures
        statement_count(s.take(i)) <= statement_count(s),
    decreases s.len() - i,
{
    if i < s.len() {
        lemma_statement_count_prefix(s, i + 1);
        assert(s.take(i + 1).drop_last() =~= s.take(i));
    } else {
        assert(s.take(i) =~= s);
    }
}

/// Counts the statements of a body, nested blocks included
/// (see [`statement_count`]).
pub fn count_statements(statements: &[Statement]) -> (n: usize)
    requires
        statement_count(statements@) <= usize::MAX,
    ensures
        n == statement_count(statements@),
    decreases statements@,
{
    let mut count: usize = 0;
    let mut i: usize = 0;
    while i < statements.len()
        invariant
            i <= statements@.len(),
            statement_count(statements@) <= usize::MAX,
            count == statement_count(statements@.take(i as int)),
        decreases statements@.len() - i,
    {
        let stmt = &statements[i];
        proof {
            assert(statements@.take(i + 1).drop_last() =~= statements@.take(i as int));
            assert(statements@.take(i + 1).last() == statements@[i as int]);
            lemma_statement_count_prefix(statements@, i + 1);
            assert(statement_count(statements@.take(i + 1)) == count + 1 + nested_statement_count(
                statements@[i as int],
            ));
        }
        count = count + 1;
        match stmt {
            Statement::Conditional(cond) => {
                assert(decreases_to!(statements@ => statements@[i as int]));
                count = count + count_statements(cond.consequent.statements.as_slice());
                match &cond.alternative {
                    Some(alternative) => {
                        count = count + count_statements(alternative.statements.as_slice());
                    },
                    None => {},
                }
            },
            Statement::Loop(loop_stmt) => {
                assert(decreases_to!(statements@ => statements@[i as int]));
                count = count + count_statements(loop_stmt.body.statements.as_slice());
            },
            _ => {},
        }
        i = i + 1;
    }
    proof {
        assert(statements@.take(i as int) =~= statements@);
    }
    count
}

/// The smaller of `n` and `cap`.
pub open spec fn capped(n: nat, cap: nat) -> nat {
    if n < cap {
        n
    } else {
        cap
    }
}

/// Counts the statements of a body up to `cap`: the count, or `cap` when
/// there are at least that many.
pub fn count_statements_capped(statements: &[Statement], cap: usize) -> (n: usize)
    ensures
        n == capped(statement_count(statements@), cap as nat),
    decreases statements@,
{
    let mut count: usize = 0;
    let mut i: usize = 0;
    while i < statements.len()
        invariant
            i <= statements@.len(),
            count == capped(statement_count(statements@.take(i as int)), cap as nat),
        decreases statements@.len() - i,
    {
        let stmt = &statements[i];
        proof {
            assert(statements@.take(i + 1).drop_last() =~= statements@.take(i as int));
            assert(statements@.take(i + 1).last() == statements@[i as int]);
            assert(statement_count(statements@.take(i + 1)) == statement_count(
                statements@.take(i as int),
            ) + 1 + nested_statement_count(statements@[i as int]));
        }
        if count < cap {
            count = count + 1;
            match stmt {
                Statement::Conditional(cond) => {
                    assert(decreases_to!(statements@ => statements@[i as int]));
                    let inner = count_statements_capped(
                        cond.consequent.statements.as_slice(),
                        cap - count,
                    );
                    count = count + inner;
                    if count < cap {
                        match &cond.alternative {
                            Some(alternative) => {
                                let more = count_statements_capped(
                                    alternative.statements.as_slice(),
                                    cap - count,
                                );
                                count = count + more;
                            },
                            None => {},
                        }
                    }
                },
                Statement::Loop(loop_stmt) => {
                    assert(decreases_to!(statements@ => statements@[i as int]));
                    let inner = count_statements_capped(
                        loop_stmt.body.statements.as_slice(),
                        cap - count,
                    );
                    count = count + inner;
                },
                _ => {},
            }
        }
        i = i + 1;
    }
    proof {
        assert(statements@.take(i as int) =~= statements@);
    }
    count
}

/// Whether a body is small enough to be always inlined: fewer than [`SMALL_FUNCTION_LIMIT`] statements,
/// nested ones included.
pub fn is_small_function(statements: &[Statement]) -> (b: bool)
    ensures
        b == (statement_count(statements@) < SMALL_FUNCTION_LIMIT),
{
    count_statements_capped(statements, SMALL_FUNCTION_LIMIT) < SMALL_FUNCTION_LIMIT
}

/// The names assigned to (as a bare identifier on the left of `=`)
/// anywhere in `stmts`: in expression statements, return values, variable
/// initialisers and the blocks of conditionals, loops and lambdas.
pub open spec fn mutated_in_statements(stmts: Seq<Statement>) -> Set<Seq<char>>
    decreases stmts,
{
    if stmts.len() == 0 {
        Set::empty()
    } else {
        mutated_in_statements(stmts.drop_last()) + mutated_in_statement(stmts.last())
    }
}

pub open spec fn mutated_in_statement(s: Statement) -> Set<Seq<char>>
    decreases s,
{
    match s {
        Statement::Expression(e) => mutated_in_expression(e.expression),
        Statement::Conditional(c) => mutated_in_statements(c.consequent.statements@) + match c.alternative {
            Some(b) => mutated_in_statements(b.statements@),
            None => Set::empty(),
        },
        Statement::Loop(l) => mutated_in_statements(l.body.statements@),
        Statement::Return(r) => match r.expression {
            Some(e) => mutated_in_expression(e),
            None => Set::empty(),
        },
        Statement::Var(v) => mutated_in_bindings(v.bindings@),
        _ => Set::empty(),
    }
}

pub open spec fn mutated_in_bindings(bs: Seq<VarBinding>) -> Set<Seq<char>>
    decreases bs,
{
    if bs.len() == 0 {
        Set::empty()
    } else {
        mutated_in_bindings(bs.drop_last()) + match bs.last().initializer {
            Some(e) => mutated_in_expression(e),
            None => Set::empty(),
        }
    }
}

pub open spec fn mutated_in_expressions(es: Seq<Expression>) -> Set<Seq<char>>
    decreases es,
{
    if es.len() == 0 {
        Set::empty()
    } else {
        mutated_in_expressions(es.drop_last()) + mutated_in_expression(es.last())
    }
}

pub open spec fn mutated_in_arguments(args: Seq<CallArgument>) -> Set<Seq<char>>
    decreases args,
{
    if args.len() == 0 {
        Set::empty()
    } else {
        mutated_in_arguments(args.drop_last()) + mutated_in_expression(args.last().expression)
    }
}

pub open spec fn mutated_in_entries(entries: Seq<DictEntry>) -> Set<Seq<char>>
    decreases entries,
{
    if entries.len() == 0 {
        Set::empty()
    } else {
        mutated_in_entries(entries.drop_last()) + mutated_in_expression(entries.last().value)
    }
}

pub open spec fn mutated_in_parts(parts: Seq<InterpolatedStringPart>) -> Set<Seq<char>>
    decreases parts,
{
    if parts.len() == 0 {
        Set::empty()
    } else {
        mutated_in_parts(parts.drop_last()) + match parts.last() {
            InterpolatedStringPart::Expression(e) => mutated_in_expression(e),
            InterpolatedStringPart::Literal(_) => Set::empty(),
        }
    }
}

/// The names assigned to inside one expression. Member, index, range and
/// grouping expressions are not looked into.
pub open spec fn mutated_in_expression(e: Expression) -> Set<Seq<char>>
    decreases e,
{
    match e.kind {
        ExpressionKind::Assignment(a) => (match a.target.kind {
            ExpressionKind::Identifier(id) => set![id.name@],
            _ => Set::empty(),
        }) + mutated_in_expression(*a.value),
        ExpressionKind::Binary(b) => mutated_in_expression(*b.left) + mutated_in_expression(
            *b.right,
        ),
        ExpressionKind::Unary(u) => mutated_in_expression(*u.operand),
        ExpressionKind::Call(c) => mutated_in_expression(*c.callee) + mutated_in_arguments(
            c.arguments@,
        ),
        ExpressionKind::Lambda(l) => match l.body {
            LambdaBody::Block(b) => mutated_in_statements(b.statements@),
            LambdaBody::Expression(x) => mutated_in_expression(*x),
        },
        ExpressionKind::List(l) => mutated_in_expressions(l.elements@),
        ExpressionKind::Dict(d) => mutated_in_entries(d.entries@),
        ExpressionKind::InterpolatedString(i) => mutated_in_parts(i.parts@),
        _ => Set::empty(),
    }
}

/// The names held by a list of strings.
pub open spec fn name_set(v: Seq<String>) -> Set<Seq<char>> {
    Set::new(|k: Seq<char>| exists|i: int| 0 <= i < v.len() && #[trigger] v[i]@ == k)
}

/// No name occurs twice.
pub open spec fn distinct_names(v: Seq<String>) -> bool {
    forall|i: int, j: int| 0 <= i < j < v.len() ==> #[trigger] v[i]@ != #[trigger] v[j]@
}

/// Adds `name` unless it is already there.
fn insert_name(names: &mut Vec<String>, name: &String)
    requires
        distinct_names(old(names)@),
    ensures
        distinct_names(final(names)@),
        name_set(final(names)@) == name_set(old(names)@).insert(name@),
{
    let mut i: usize = 0;
    while i < names.len()
        invariant
            i <= names@.len(),
            distinct_names(names@),
            forall|j: int| 0 <= j < i ==> names@[j]@ != name@,
        decreases names@.len() - i,
    {
        if str_eq(names[i].as_str(), name.as_str()) {
            proof {
                assert(name_set(names@) =~= name_set(names@).insert(name@));
            }
            return;
        }
        i = i + 1;
    }
    let ghost before = names@;
    names.push(name.clone());
    proof {
        assert(names@[before.len() as int]@ == name@);
        assert forall|k: Seq<char>| #[trigger] name_set(names@).contains(k) == name_set(
            before,
        ).insert(name@).contains(k) by {
            if name_set(before).contains(k) {
                let j = choose|j: int| 0 <= j < before.len() && #[trigger] before[j]@ == k;
                assert(names@[j] == before[j]);
            }
            if name_set(names@).contains(k) {
                let j = choose|j: int| 0 <= j < names@.len() && #[trigger] names@[j]@ == k;
                if j < before.len() {
                    assert(names@[j] == before[j]);
                }
            }
        }
        assert(name_set(names@) =~= name_set(before).insert(name@));
    }
}

/// Adds the names assigned to in each expression.
pub fn find_mutated_in_expressions(items: &[Expression], mutated: &mut Vec<String>)
    requires
        distinct_names(old(mutated)@),
    ensures
        distinct_names(final(mutated)@),
        name_set(final(mutated)@) == name_set(old(mutated)@) + mutated_in_expressions(items@),
    decreases items@,
{
    let ghost start = name_set(mutated@);
    let mut i: usize = 0;
    while i < items.len()
        invariant
            i <= items@.len(),
            distinct_names(mutated@),
            name_set(mutated@) == start + mutated_in_expressions(items@.take(i as int)),
        decreases items@.len() - i,
    {
        let item = &items[i];
        proof {
            assert(items@.take(i + 1).drop_last() =~= items@.take(i as int));
            assert(items@.take(i + 1).last() == items@[i as int]);
            assert(decreases_to!(items@ => items@[i as int]));
        }
        let ghost before = name_set(mutated@);
        find_mutated_in_expression(item, mutated);
        proof {
            assert(name_set(mutated@) =~= start + mutated_in_expressions(items@.take(i + 1)));
        }
        i = i + 1;
    }
    proof {
        assert(items@.take(i as int) =~= items@);
    }
}

/// Adds the names assigned to in each call argument.
pub fn find_mutated_in_arguments(items: &[CallArgument], mutated: &mut Vec<String>)
    requires
        distinct_names(old(mutated)@),
    ensures
        distinct_names(final(mutated)@),
        name_set(final(mutated)@) == name_set(old(mutated)@) + mutated_in_arguments(items@),
    decreases items@,
{
    let ghost start = name_set(mutated@);
    let mut i: usize = 0;
    while i < items.len()
        invariant
            i <= items@.len(),
            distinct_names(mutated@),
            name_set(mutated@) == start + mutated_in_arguments(items@.take(i as int)),
        decreases items@.len() - i,
    {
        let item = &items[i];
        proof {
            assert(items@.take(i + 1).drop_last() =~= items@.take(i as int));
            assert(items@.take(i + 1).last() == items@[i as int]);
            assert(decreases_to!(items@ => items@[i as int]));
        }
        let ghost before = name_set(mutated@);
        find_mutated_in_expression(&item.expression, mutated);
        proof {
            assert(name_set(mutated@) =~= start + mutated_in_arguments(items@.take(i + 1)));
        }
        i = i + 1;
    }
    proof {
        assert(items@.take(i as int) =~= items@);
    }
}

/// Adds the names assigned to in each dictionary value.
pub fn find_mutated_in_entries(items: &[DictEntry], mutated: &mut Vec<String>)
    requires
        distinct_names(old(mutated)@),
    ensures
        distinct_names(final(mutated)@),
        name_set(final(mutated)@) == name_set(old(mutated)@) + mutated_in_entries(items@),
    decreases items@,
{
    let ghost start = name_set(mutated@);
    let mut i: usize = 0;
    while i < items.len()
        invariant
            i <= items@.len(),
            distinct_names(mutated@),
            name_set(mutated@) == start + mutated_in_entries(items@.take(i as int)),
        decreases items@.len() - i,
    {
        let item = &items[i];
        proof {
            assert(items@.take(i + 1).drop_last() =~= items@.take(i as int));
            assert(items@.take(i + 1).last() == items@[i as int]);
            assert(decreases_to!(items@ => items@[i as int]));
        }
        let ghost before = name_set(mutated@);
        find_mutated_in_expression(&item.value, mutated);
        proof {
            assert(name_set(mutated@) =~= start + mutated_in_entries(items@.take(i + 1)));
        }
        i = i + 1;
    }
    proof {
        assert(items@.take(i as int) =~= items@);
    }
}

/// Adds the names assigned to in the expressions of an interpolated string.
pub fn find_mutated_in_parts(items: &[InterpolatedStringPart], mutated: &mut Vec<String>)
    requires
        distinct_names(old(mutated)@),
    ensures
        distinct_names(final(mutated)@),
        name_set(final(mutated)@) == name_set(old(mutated)@) + mutated_in_parts(items@),
    decreases items@,
{
    let ghost start = name_set(mutated@);
    let mut i: usize = 0;
    while i < items.len()
        invariant
            i <= items@.len(),
            distinct_names(mutated@),
            name_set(mutated@) == start + mutated_in_parts(items@.take(i as int)),
        decreases items@.len() - i,
    {
        let item = &items[i];
        proof {
            assert(items@.take(i + 1).drop_last() =~= items@.take(i as int));
            assert(items@.take(i + 1).last() == items@[i as int]);
            assert(decreases_to!(items@ => items@[i as int]));
        }
        let ghost before = name_set(mutated@);
        match item {
            InterpolatedStringPart::Expression(e) => find_mutated_in_expression(e, mutated),
            InterpolatedStringPart::Literal(_) => {
                assert(name_set(mutated@) =~= before + Set::<Seq<char>>::empty());
            },
        }
        proof {
            assert(name_set(mutated@) =~= start + mutated_in_parts(items@.take(i + 1)));
        }
        i = i + 1;
    }
    proof {
        assert(items@.take(i as int) =~= items@);
    }
}

/// Adds the names assigned to in the initialisers of variable bindings.
pub fn find_mutated_in_bindings(items: &[VarBinding], mutated: &mut Vec<String>)
    requires
        distinct_names(old(mutated)@),
    ensures
        distinct_names(final(mutated)@),
        name_set(final(mutated)@) == name_set(old(mutated)@) + mutated_in_bindings(items@),
    decreases items@,
{
    let ghost start = name_set(mutated@);
    let mut i: usize = 0;
    while i < items.len()
        invariant
            i <= items@.len(),
            distinct_names(mutated@),
            name_set(mutated@) == start + mutated_in_bindings(items@.take(i as int)),
        decreases items@.len() - i,
    {
        let item = &items[i];
        proof {
            assert(items@.take(i + 1).drop_last() =~= items@.take(i as int));
            assert(items@.take(i + 1).last() == items@[i as int]);
            assert(decreases_to!(items@ => items@[i as int]));
        }
        let ghost before = name_set(mutated@);
        match &item.initializer {
            Some(init) => find_mutated_in_expression(init, mutated),
            None => {
                assert(name_set(mutated@) =~= before + Set::<Seq<char>>::empty());
            },
        }
        proof {
            assert(name_set(mutated@) =~= start + mutated_in_bindings(items@.take(i + 1)));
        }
        i = i + 1;
    }
    proof {
        assert(items@.take(i as int) =~= items@);
    }
}

/// Adds the names assigned to anywhere in a list of statements (see
/// [`mutated_in_statements`]).
pub fn find_mutated_in_statements(items: &[Statement], mutated: &mut Vec<String>)
    requires
        distinct_names(old(mutated)@),
    ensures
        distinct_names(final(mutated)@),
        name_set(final(mutated)@) == name_set(old(mutated)@) + mutated_in_statements(items@),
    decreases items@,
{
    let ghost start = name_set(mutated@);
    let mut i: usize = 0;
    while i < items.len()
        invariant
            i <= items@.len(),
            distinct_names(mutated@),
            name_set(mutated@) == start + mutated_in_statements(items@.take(i as int)),
        decreases items@.len() - i,
    {
        let item = &items[i];
        proof {
            assert(items@.take(i + 1).drop_last() =~= items@.take(i as int));
            assert(items@.take(i + 1).last() == items@[i as int]);
            assert(decreases_to!(items@ => items@[i as int]));
        }
        let ghost before = name_set(mutated@);
        match item {
            Statement::Expression(e) => find_mutated_in_expression(&e.expression, mutated),
            Statement::Conditional(cond) => {
                find_mutated_in_statements(cond.consequent.statements.as_slice(), mutated);
                match &cond.alternative {
                    Some(alt) => find_mutated_in_statements(alt.statements.as_slice(), mutated),
                    None => {},
                }
                assert(name_set(mutated@) =~= before + mutated_in_statement(*item));
            },
            Statement::Loop(loop_stmt) => {
                find_mutated_in_statements(loop_stmt.body.statements.as_slice(), mutated);
            },
            Statement::Return(ret) => match &ret.expression {
                Some(e) => find_mutated_in_expression(e, mutated),
                None => {
                    assert(name_set(mutated@) =~= before + Set::<Seq<char>>::empty());
                },
            },
            Statement::Var(var) => find_mutated_in_bindings(var.bindings.as_slice(), mutated),
            _ => {
                assert(name_set(mutated@) =~= before + Set::<Seq<char>>::empty());
            },
        }
        proof {
            assert(name_set(mutated@) =~= before + mutated_in_statement(items@[i as int]));
        }
        proof {
            assert(name_set(mutated@) =~= start + mutated_in_statements(items@.take(i + 1)));
        }
        i = i + 1;
    }
    proof {
        assert(items@.take(i as int) =~= items@);
    }
}

/// Adds the names assigned to inside an expression (see
/// [`mutated_in_expression`]).
pub fn find_mutated_in_expression(expr: &Expression, mutated: &mut Vec<String>)
    requires
        distinct_names(old(mutated)@),
    ensures
        distinct_names(final(mutated)@),
        name_set(final(mutated)@) == name_set(old(mutated)@) + mutated_in_expression(*expr),
    decreases expr,
{
    let ghost before = name_set(mutated@);
    match &expr.kind {
        ExpressionKind::Assignment(assignment) => {
            match &assignment.target.kind {
                ExpressionKind::Identifier(ident) => insert_name(mutated, &ident.name),
                _ => {},
            }
            find_mutated_in_expression(&*assignment.value, mutated);
        },
        ExpressionKind::Binary(binary) => {
            find_mutated_in_expression(&*binary.left, mutated);
            find_mutated_in_expression(&*binary.right, mutated);
        },
        ExpressionKind::Unary(unary) => {
            find_mutated_in_expression(&*unary.operand, mutated);
        },
        ExpressionKind::Call(call) => {
            find_mutated_in_expression(&*call.callee, mutated);
            find_mutated_in_arguments(call.arguments.as_slice(), mutated);
        },
        ExpressionKind::Lambda(lambda) => match &lambda.body {
            LambdaBody::Block(block) => {
                find_mutated_in_statements(block.statements.as_slice(), mutated);
            },
            LambdaBody::Expression(body) => {
                find_mutated_in_expression(&*body, mutated);
            },
        },
        ExpressionKind::List(list) => {
            find_mutated_in_expressions(list.elements.as_slice(), mutated);
        },
        ExpressionKind::Dict(dict) => {
            find_mutated_in_entries(dict.entries.as_slice(), mutated);
        },
        ExpressionKind::InterpolatedString(interp) => {
            find_mutated_in_parts(interp.parts.as_slice(), mutated);
        },
        _ => {},
    }
    proof {
        assert(name_set(mutated@) =~= before + mutated_in_expression(*expr));
    }
}

/// The names a function body assigns to, each once (which parameters need
/// a mutable slot).
pub fn find_mutated_parameters(function: &FunctionStatement) -> (names: Vec<String>)
    ensures
        distinct_names(names@),
        name_set(names@) == mutated_in_statements(function.body.statements@),
{
    let mut mutated: Vec<String> = Vec::new();
    proof {
        assert(name_set(mutated@) =~= Set::<Seq<char>>::empty());
    }
    find_mutated_in_statements(function.body.statements.as_slice(), &mut mutated);
    proof {
        assert(name_set(mutated@) =~= mutated_in_statements(function.body.statements@));
    }
    mutated
}

} // verus!
