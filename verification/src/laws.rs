use vstd::prelude::*;

use crate::codegen::{pair_texts, structs_text, task_struct_text, ascii_lowercase_known, ascii_variable_known, attributes_text, custom_structs_text,
    main_file_text, MACROS, constructor_args, constructors_text,
    ascii_capitalized, edges_text, execute_code_text, pipes_text, common_inputs, task_named, capitalized, insert_field, insert_fields, kind_name, task_new_fields};
use crate::model::{add_workflow_outcome, distinct_keys, has_workflow_named, ComposerError, Task, Workflow};
use crate::text::{first_segment, decimal, digit_char, join, ascii_chars, ascii_lower, ascii_upper, lowercase, uppercase};

verus! {

/// Some entry of `m` has the key `k`.
pub open spec fn has_key(m: Seq<(String, String)>, k: Seq<char>) -> bool {
    exists|i: int| 0 <= i < m.len() && #[trigger] m[i].0@ == k
}

/// Once a workflow has been added under a name, a second workflow of that name is refused
/// as a duplicate.
pub proof fn law_duplicate_workflow_refused(workflows: Seq<Workflow>, w: Workflow)
    requires
        add_workflow_outcome(workflows, w.name@) is Ok,
    ensures
        has_workflow_named(workflows.push(w), w.name@),
        add_workflow_outcome(workflows.push(w), w.name@) == Err::<(), ComposerError>(
            ComposerError::DuplicateWorkflowName,
        ),
{
    let ws = workflows.push(w);
    assert(ws[workflows.len() as int].name@ == w.name@);
}

/// Task kinds are matched without regard to letter case: two kinds with the same
/// lowercase mapping select the same platform.
pub proof fn law_kind_ignores_case(a: Seq<char>, b: Seq<char>)
    requires
        lowercase(a) == lowercase(b),
    ensures
        kind_name(a) == kind_name(b),
{
}

proof fn lemma_insert_field(m: Seq<(String, String)>, kv: (String, String))
    ensures
        distinct_keys(m) ==> distinct_keys(insert_field(m, kv)),
        has_key(insert_field(m, kv), kv.0@),
        forall|k: Seq<char>| has_key(m, k) ==> has_key(insert_field(m, kv), k),
{
    let r = insert_field(m, kv);
    if exists|i: int| 0 <= i < m.len() && #[trigger] m[i].0@ == kv.0@ {
        let i = choose|i: int| 0 <= i < m.len() && #[trigger] m[i].0@ == kv.0@;
        assert(r.len() == m.len());
        assert(forall|j: int| 0 <= j < m.len() ==> (#[trigger] r[j]).0 == m[j].0);
        assert(r[i].0@ == kv.0@);
        assert forall|k: Seq<char>| has_key(m, k) implies has_key(r, k) by {
            let j = choose|j: int| 0 <= j < m.len() && #[trigger] m[j].0@ == k;
            assert(r[j].0@ == k);
        }
    } else {
        assert(r[m.len() as int] == kv);
        assert forall|k: Seq<char>| has_key(m, k) implies has_key(r, k) by {
            let j = choose|j: int| 0 <= j < m.len() && #[trigger] m[j].0@ == k;
            assert(r[j] == m[j]);
        }
    }
}

proof fn lemma_insert_fields(m: Seq<(String, String)>, fields: Seq<(String, String)>)
    ensures
        distinct_keys(m) ==> distinct_keys(insert_fields(m, fields)),
        forall|j: int| 0 <= j < fields.len() ==> has_key(insert_fields(m, fields), #[trigger] fields[j].0@),
        forall|k: Seq<char>| has_key(m, k) ==> has_key(insert_fields(m, fields), k),
    decreases fields.len(),
{
    if fields.len() > 0 {
        let prev = insert_fields(m, fields.drop_last());
        lemma_insert_fields(m, fields.drop_last());
        lemma_insert_field(prev, fields.last());
        assert forall|j: int| 0 <= j < fields.len() implies has_key(
            insert_fields(m, fields),
            #[trigger] fields[j].0@,
        ) by {
            if j < fields.len() - 1 {
                assert(fields.drop_last()[j] == fields[j]);
            }
        }
    }
}

/// The common input struct of a workflow declares each field name at most once.
pub proof fn law_common_input_fields_distinct(tasks: Seq<(String, Task)>)
    ensures
        distinct_keys(common_inputs(tasks)),
    decreases tasks.len(),
{
    if tasks.len() > 0 {
        law_common_input_fields_distinct(tasks.drop_last());
        lemma_insert_fields(common_inputs(tasks.drop_last()), task_new_fields(tasks.last().1));
    }
}

/// Every field that a task takes from the common input (and that its constructor line
/// reads from `input`) is declared in the common input struct.
pub proof fn law_common_input_covers_tasks(tasks: Seq<(String, Task)>, i: int, j: int)
    requires
        0 <= i < tasks.len(),
        0 <= j < task_new_fields(tasks[i].1).len(),
    ensures
        has_key(common_inputs(tasks), task_new_fields(tasks[i].1)[j].0@),
    decreases tasks.len(),
{
    let prev = tasks.drop_last();
    lemma_insert_fields(common_inputs(prev), task_new_fields(tasks.last().1));
    if i < tasks.len() - 1 {
        assert(prev[i] == tasks[i]);
        law_common_input_covers_tasks(prev, i, j);
    }
}

proof fn lemma_task_named_some(tasks: Seq<(String, Task)>, name: Seq<char>)
    requires
        task_named(tasks, name) is Some,
    ensures
        exists|k: int| 0 <= k < tasks.len() && #[trigger] tasks[k].0@ == name,
    decreases tasks.len(),
{
    let prev = tasks.drop_last();
    if task_named(prev, name) is Some {
        lemma_task_named_some(prev, name);
        let k = choose|k: int| 0 <= k < prev.len() && #[trigger] prev[k].0@ == name;
        assert(tasks[k] == prev[k]);
    } else {
        assert(tasks[tasks.len() - 1].0@ == name);
    }
}

/// Where the tasks have distinct names, looking a task up by its name gives that task.
pub proof fn law_task_lookup_by_name(tasks: Seq<(String, Task)>, i: int)
    requires
        distinct_keys(tasks),
        0 <= i < tasks.len(),
    ensures
        task_named(tasks, tasks[i].0@) == Some(tasks[i].1),
    decreases tasks.len(),
{
    let prev = tasks.drop_last();
    let name = tasks[i].0@;
    if i < tasks.len() - 1 {
        assert(prev[i] == tasks[i]);
        assert(distinct_keys(prev)) by {
            assert forall|a: int, b: int| 0 <= a < b < prev.len() implies #[trigger] prev[a].0@ != #[trigger] prev[b].0@ by {
                assert(prev[a] == tasks[a] && prev[b] == tasks[b]);
            }
        }
        law_task_lookup_by_name(prev, i);
    } else {
        if task_named(prev, name) is Some {
            lemma_task_named_some(prev, name);
            let k = choose|k: int| 0 <= k < prev.len() && #[trigger] prev[k].0@ == name;
            assert(tasks[k] == prev[k]);
            assert(tasks[k].0@ != tasks[i].0@);
        }
    }
}

/// Where the first character's uppercase mapping is a single character that is its own
/// uppercase mapping (as for the letters of ASCII), capitalizing keeps the length and
/// capitalizing again changes nothing.
pub proof fn law_capitalize_idempotent(s: Seq<char>)
    requires
        s.len() > 0,
        uppercase(s[0]).len() == 1,
        uppercase(uppercase(s[0])[0]) == uppercase(s[0]),
    ensures
        capitalized(s).len() == s.len(),
        capitalized(capitalized(s)) == capitalized(s),
{
    let c = capitalized(s);
    assert(c[0] == uppercase(s[0])[0]);
    assert(c.drop_first() =~= s.drop_first());
}

/// Capitalizing ASCII text keeps it ASCII and keeps its length, upper-cases the first letter
/// and leaves the rest; capitalizing again changes nothing. (By `capitalize`'s contract its
/// result on ASCII text is `ascii_capitalized` of it, so `capitalize` of that result is the same
/// text.)
pub proof fn law_capitalize_ascii(s: Seq<char>)
    requires
        ascii_chars(s),
    ensures
        ascii_chars(ascii_capitalized(s)),
        ascii_capitalized(s).len() == s.len(),
        s.len() > 0 ==> ascii_capitalized(s)[0] == ascii_upper(s[0]),
        s.len() > 0 ==> ascii_capitalized(s).drop_first() == s.drop_first(),
        ascii_capitalized(ascii_capitalized(s)) == ascii_capitalized(s),
{
    if s.len() > 0 {
        let c = s[0];
        assert((c as u32) < 128);
        let u = ascii_upper(c);
        if 'a' <= c && c <= 'z' {
            assert((u as u32) == (c as u32) - 32);
            assert(!('a' <= u && u <= 'z'));
        }
        assert(ascii_upper(u) == u);
        let t = ascii_capitalized(s);
        assert(t.drop_first() =~= s.drop_first());
        assert forall|i: int| 0 <= i < t.len() implies (#[trigger] t[i] as u32) < 128 by {
            if i > 0 {
                assert(t[i] == s[i]);
            }
        }
        assert(ascii_capitalized(t) =~= t);
    } else {
        assert(ascii_capitalized(ascii_capitalized(s)) =~= ascii_capitalized(s));
    }
}

/// The pipe step through the task `name`.
pub open spec fn pipe_step(name: Seq<char>) -> Seq<char> {
    "\t\t.pipe("@ + lowercase(name) + "_index)?\n"@
}

/// The pipe steps through the named tasks are written one after another, in the order of
/// `names`: the `k`-th step pipes through `names[k]`.
pub proof fn law_pipes_in_order(names: Seq<String>)
    ensures
        pipes_text(names) == Seq::new(names.len(), |k: int| pipe_step(names[k]@)).flatten(),
    decreases names.len(),
{
    let steps = Seq::new(names.len(), |k: int| pipe_step(names[k]@));
    if names.len() == 0 {
        assert(steps =~= Seq::<Seq<char>>::empty());
    } else {
        let prev = names.drop_last();
        law_pipes_in_order(prev);
        let prev_steps = Seq::new(prev.len(), |k: int| pipe_step(prev[k]@));
        assert(steps =~= prev_steps.push(pipe_step(names.last()@)));
        prev_steps.lemma_flatten_push(pipe_step(names.last()@));
    }
}

/// The graph edge from the `k`-th task of the flow to the next one.
pub open spec fn flow_edge(flow: Seq<String>, k: int) -> Seq<char> {
    "\t\t("@ + lowercase(flow[k]@) + "_index, "@ + lowercase(flow[k + 1]@) + "_index),\n"@
}

/// The edges link each task of the flow to the next one, in flow order: the `k`-th edge goes
/// from `flow[k]` to `flow[k + 1]`.
pub proof fn law_edges_in_order(flow: Seq<String>)
    requires
        flow.len() >= 1,
    ensures
        edges_text(flow) == Seq::new((flow.len() - 1) as nat, |k: int| flow_edge(flow, k)).flatten(),
    decreases flow.len(),
{
    let n = flow.len();
    let edges = Seq::new((n - 1) as nat, |k: int| flow_edge(flow, k));
    if n == 1 {
        assert(edges =~= Seq::<Seq<char>>::empty());
    } else {
        let prev = flow.drop_last();
        law_edges_in_order(prev);
        let prev_edges = Seq::new((prev.len() - 1) as nat, |k: int| flow_edge(prev, k));
        assert(edges =~= prev_edges.push(flow_edge(flow, n - 2)));
        prev_edges.lemma_flatten_push(flow_edge(flow, n - 2));
    }
}

/// The execution code of a flow of two tasks or more: an edge from each task to the next, in
/// flow order; then the run, which pipes through every task after the first and before the
/// last in flow order, and ends at the last task, on its own output where it depends on at
/// most one task. A flow of one task gives no edge and no step.
pub proof fn law_execute_code_in_flow_order(tasks: Seq<(String, Task)>, flow: Seq<String>)
    requires
        flow.len() >= 1,
    ensures
        flow.len() == 1 ==> execute_code_text(tasks, flow)
            == "\tworkflow.add_edges(&[\n\t]);\n\n\tlet result = workflow\n\t\t.int()?\n"@,
        flow.len() >= 2 ==> execute_code_text(tasks, flow) == "\tworkflow.add_edges(&[\n"@
            + Seq::new((flow.len() - 1) as nat, |k: int| flow_edge(flow, k)).flatten()
            + "\t]);\n\n\tlet result = workflow\n\t\t.int()?\n"@
            + Seq::new((flow.len() - 2) as nat, |k: int| pipe_step(flow[k + 1]@)).flatten()
            + (if task_named(tasks, flow.last()@).unwrap().depend_on@.len() <= 1 {
                "\t\t.term(Some("@ + lowercase(flow.last()@) + "_index))?;\n"@
            } else {
                "\t\t.pipe("@ + lowercase(flow.last()@) + "_index)?\n\t\t.term(None)?;\n"@
            }),
{
    reveal_strlit("\tworkflow.add_edges(&[\n\t]);\n\n\tlet result = workflow\n\t\t.int()?\n");
    reveal_strlit("\tworkflow.add_edges(&[\n");
    reveal_strlit("\t]);\n\n");
    reveal_strlit("\tlet result = workflow\n\t\t.int()?\n");
    reveal_strlit("\t]);\n\n\tlet result = workflow\n\t\t.int()?\n");
    law_edges_in_order(flow);
    let n = flow.len();
    if n == 1 {
        assert(execute_code_text(tasks, flow) =~= "\tworkflow.add_edges(&[\n\t]);\n\n\tlet result = workflow\n\t\t.int()?\n"@);
    } else {
        let middle = flow.subrange(1, n - 1);
        law_pipes_in_order(middle);
        assert(Seq::new(middle.len(), |k: int| pipe_step(middle[k]@))
            =~= Seq::new((n - 2) as nat, |k: int| pipe_step(flow[k + 1]@)));
        assert("\t]);\n\n\tlet result = workflow\n\t\t.int()?\n"@ =~= "\t]);\n\n"@
            + "\tlet result = workflow\n\t\t.int()?\n"@);
    }
}

/// The lines that build the task `name` and add it to the graph. The variable they declare,
/// and its `_index`, is the lowercase mapping of the capitalized task name.
pub open spec fn constructor_lines(name: Seq<char>, task: Task) -> Seq<char> {
    let struct_name = capitalized(name);
    let var = lowercase(struct_name);
    "\tlet "@ + var + " = "@ + struct_name + "::new("@ + constructor_args(task) + "\""@ + task.action_name@
        + "\".to_string());\n\tlet "@ + var + "_index = workflow::add_node(Box::new("@ + var + "));\n"@
}

/// The constructor lines of a workflow build every task once, in the order of the tasks, each
/// declaring the variable `lowercase(capitalized(name))` and its `_index`.
pub proof fn law_constructors_in_order(tasks: Seq<(String, Task)>)
    ensures
        constructors_text(tasks) == Seq::new(
            tasks.len(),
            |i: int| constructor_lines(tasks[i].0@, tasks[i].1),
        ).flatten(),
    decreases tasks.len(),
{
    let lines = Seq::new(tasks.len(), |i: int| constructor_lines(tasks[i].0@, tasks[i].1));
    if tasks.len() == 0 {
        assert(lines =~= Seq::<Seq<char>>::empty());
    } else {
        let prev = tasks.drop_last();
        law_constructors_in_order(prev);
        let prev_lines = Seq::new(prev.len(), |i: int| constructor_lines(prev[i].0@, prev[i].1));
        let last = constructor_lines(tasks.last().0@, tasks.last().1);
        assert(lines =~= prev_lines.push(last));
        prev_lines.lemma_flatten_push(last);
    }
}

/// For an ASCII task name, lower-casing the capitalized name gives the lowercase name: the
/// variable that the constructor lines declare is the one the execution code uses for the task
/// (`get_custom_structs` and `get_workflow_execute_code` state that their lowercase mappings of
/// ASCII names are the ASCII ones).
pub proof fn law_ascii_names_agree(name: Seq<char>)
    requires
        ascii_chars(name),
    ensures
        ascii_chars(ascii_capitalized(name)),
        ascii_capitalized(name).map_values(|c: char| ascii_lower(c)) == name.map_values(
            |c: char| ascii_lower(c),
        ),
{
    law_capitalize_ascii(name);
    if name.len() > 0 {
        let c = name[0];
        assert((c as u32) < 128);
        let u = ascii_upper(c);
        if 'a' <= c && c <= 'z' {
            assert((u as u32) == (c as u32) - 32);
            assert('A' <= u && u <= 'Z');
            assert(((u as u32) + 32) as char == c);
            assert(ascii_lower(c) == c);
        }
        assert(ascii_lower(u) == ascii_lower(c));
        let t = ascii_capitalized(name);
        let tl = t.map_values(|c: char| ascii_lower(c));
        let nl = name.map_values(|c: char| ascii_lower(c));
        assert forall|i: int| 0 <= i < name.len() implies #[trigger] tl[i] == nl[i] by {
            if i > 0 {
                assert(t[i] == name[i]);
            }
        }
        assert(tl =~= nl);
    } else {
        assert(ascii_capitalized(name).map_values(|c: char| ascii_lower(c)) =~= name.map_values(
            |c: char| ascii_lower(c),
        ));
    }
}

/// The variable that the constructor lines declare for an ASCII task name is the one that the
/// execution code uses for it: given the lowercase mappings that `get_custom_structs` and
/// `get_workflow_execute_code` state for ASCII names, `lowercase(capitalized(name))` and
/// `lowercase(name)` agree.
pub proof fn law_declared_variable_is_used_variable(name: Seq<char>)
    requires
        ascii_chars(name),
        ascii_variable_known(name),
        ascii_lowercase_known(name),
    ensures
        lowercase(capitalized(name)) == lowercase(name),
{
}

/// `add_workflow` refuses a name as a duplicate exactly when a held workflow has that very
/// name, refuses it as empty exactly when no workflow has it and it is empty, and accepts every
/// other name: a non-empty name that equals no held name.
pub proof fn law_add_workflow_refuses_only_equal_or_empty(workflows: Seq<Workflow>, name: Seq<char>)
    ensures
        (add_workflow_outcome(workflows, name) == Err::<(), ComposerError>(
            ComposerError::DuplicateWorkflowName,
        )) <==> exists|i: int| 0 <= i < workflows.len() && workflows[i].name@ == name,
        (add_workflow_outcome(workflows, name) == Err::<(), ComposerError>(
            ComposerError::EmptyWorkflowName,
        )) <==> (name.len() == 0 && forall|i: int| 0 <= i < workflows.len() ==> workflows[i].name@ != name),
        add_workflow_outcome(workflows, name) is Ok <==> (name.len() > 0 && forall|i: int|
            0 <= i < workflows.len() ==> workflows[i].name@ != name),
{
}

/// Every character of `s` is a decimal digit.
pub open spec fn all_digits(s: Seq<char>) -> bool {
    forall|i: int| 0 <= i < s.len() ==> '0' <= #[trigger] s[i] && s[i] <= '9'
}

/// The number that a string of decimal digits denotes.
pub open spec fn digits_value(s: Seq<char>) -> int
    decreases s.len(),
{
    if s.len() == 0 {
        0
    } else {
        10 * digits_value(s.drop_last()) + ((s.last() as int) - ('0' as int))
    }
}

/// The decimal notation of `n` consists of digits, has no leading zero, and denotes `n`.
pub proof fn law_decimal_denotes(n: nat)
    ensures
        all_digits(decimal(n)),
        decimal(n).len() >= 1,
        decimal(n).len() > 1 ==> decimal(n)[0] != '0',
        digits_value(decimal(n)) == n,
    decreases n,
{
    let d = decimal(n);
    if n >= 10 {
        law_decimal_denotes(n / 10);
        lemma_digit_value(n % 10);
        assert(d.drop_last() =~= decimal(n / 10));
        assert(d[0] == decimal(n / 10)[0]);
        if n / 10 < 10 {
            lemma_digit_value(n / 10);
            assert(decimal(n / 10)[0] == digit_char(n / 10));
            assert(digit_char(n / 10) != '0');
        } else {
            assert(decimal(n / 10) == decimal(n / 10 / 10).push(digit_char((n / 10) % 10)));
            assert(decimal(n / 10).len() > 1);
        }
        assert(d.last() == digit_char(n % 10));
        assert(digits_value(d) == 10 * digits_value(decimal(n / 10)) + ((digit_char(n % 10) as int) - ('0' as int)));
        assert(n == 10 * (n / 10) + n % 10);
        assert(digits_value(d) == n);
        assert(d.len() > 1 ==> d[0] != '0');
    } else {
        lemma_digit_value(n);
        assert(d.drop_last() =~= Seq::<char>::empty());
        assert(digits_value(d.drop_last()) == 0);
        assert(digits_value(d) == n);
        assert(d.len() == 1);
    }
}

proof fn lemma_digit_value(d: nat)
    requires
        d < 10,
    ensures
        '0' <= digit_char(d) && digit_char(d) <= '9',
        (digit_char(d) as int) - ('0' as int) == d,
{
}

/// The text of the main file up to the task limit.
pub open spec fn main_file_head(tasks: Seq<(String, Task)>) -> Seq<char> {
    MACROS@ + "\n"@ + custom_structs_text(tasks)
        + "\n\n#[allow(dead_code, unused)]\npub fn main(args: Value) -> Result<Value, String> {\n    const LIMIT: usize = "@
}

/// The main file sizes the graph for the workflow's tasks: after `const LIMIT: usize = ` stand
/// decimal digits, closed by `;`, that denote the number of tasks.
pub proof fn law_main_file_limit_is_task_count(tasks: Seq<(String, Task)>, flow: Seq<String>)
    ensures
        main_file_text(tasks, flow).take(main_file_head(tasks).len() as int) == main_file_head(tasks),
        exists|d: Seq<char>|
            #![trigger all_digits(d)]
            all_digits(d) && digits_value(d) == tasks.len() && d.len() >= 1 && main_file_text(
                tasks,
                flow,
            ).subrange(
                main_file_head(tasks).len() as int,
                (main_file_head(tasks).len() + d.len()) as int,
            ) == d && main_file_text(tasks, flow)[(main_file_head(tasks).len() + d.len()) as int] == ';',
{
    let d = decimal(tasks.len());
    law_decimal_denotes(tasks.len());
    let head = main_file_head(tasks);
    let rest = ";\n    let mut workflow = WorkflowGraph::new(LIMIT);\n    let input: Input = serde_json::from_value(args).map_err(|e| e.to_string())?;\n\n"@;
    reveal_strlit(";\n    let mut workflow = WorkflowGraph::new(LIMIT);\n    let input: Input = serde_json::from_value(args).map_err(|e| e.to_string())?;\n\n");
    let text = main_file_text(tasks, flow);
    let tail = rest + constructors_text(tasks) + "\n"@ + execute_code_text(tasks, flow)
        + "\n    let result = serde_json::to_value(result).unwrap();\n    Ok(result)\n}\n"@;
    assert(text =~= head + d + tail);
    assert(text.take(head.len() as int) =~= head);
    assert(text.subrange(head.len() as int, (head.len() + d.len()) as int) =~= d);
    assert(text[(head.len() + d.len()) as int] == tail[0]);
    assert(all_digits(d));
}

/// The attribute list names every attribute once, in order: `[`, then each pair as
/// `key:"value"` with a `,` before every pair but the first, then `]`; just `[` where there
/// are none.
pub proof fn law_attributes_listed(attributes: Seq<(String, String)>)
    ensures
        attributes.len() == 0 ==> attributes_text(attributes) == "["@,
        attributes.len() > 0 ==> attributes_text(attributes) == "["@ + Seq::new(
            attributes.len(),
            |k: int| (if k == 0 { ""@ } else { ","@ }) + attributes[k].0@ + ":\""@ + attributes[k].1@ + "\""@,
        ).flatten() + "]"@,
{
    reveal_strlit("");
    let parts = crate::codegen::pair_texts(attributes, ":\""@, "\""@);
    if attributes.len() > 0 {
        law_join_lists_parts(parts, ","@);
        let a = Seq::new(parts.len(), |k: int| if k == 0 { parts[0] } else { ","@ + parts[k] });
        let b = Seq::new(
            attributes.len(),
            |k: int| (if k == 0 { ""@ } else { ","@ }) + attributes[k].0@ + ":\""@ + attributes[k].1@ + "\""@,
        );
        assert forall|k: int| 0 <= k < a.len() implies #[trigger] a[k] == b[k] by {
            if k == 0 {
                assert(b[k] =~= attributes[k].0@ + ":\""@ + attributes[k].1@ + "\""@);
            } else {
                assert(b[k] =~= ","@ + (attributes[k].0@ + ":\""@ + attributes[k].1@ + "\""@));
            }
        }
        assert(a =~= b);
    }
}

/// Joining lists every part once, in order, with the separator before every part but the
/// first.
pub proof fn law_join_lists_parts(parts: Seq<Seq<char>>, sep: Seq<char>)
    requires
        parts.len() > 0,
    ensures
        join(parts, sep) == Seq::new(parts.len(), |k: int| if k == 0 { parts[0] } else { sep + parts[k] }).flatten(),
    decreases parts.len(),
{
    let items = Seq::new(parts.len(), |k: int| if k == 0 { parts[0] } else { sep + parts[k] });
    if parts.len() == 1 {
        assert(items =~= seq![parts[0]]);
        items.lemma_flatten_singleton();
    } else {
        let prev = parts.drop_last();
        law_join_lists_parts(prev, sep);
        let prev_items = Seq::new(prev.len(), |k: int| if k == 0 { prev[0] } else { sep + prev[k] });
        assert(items =~= prev_items.push(sep + parts.last()));
        prev_items.lemma_flatten_push(sep + parts.last());
    }
}

/// The declarations of a workflow give every task's structs once, in the order of the tasks.
pub proof fn law_structs_in_order(tasks: Seq<(String, Task)>)
    ensures
        structs_text(tasks) == Seq::new(tasks.len(), |i: int| task_struct_text(tasks[i].0@, tasks[i].1)).flatten(),
    decreases tasks.len(),
{
    let parts = Seq::new(tasks.len(), |i: int| task_struct_text(tasks[i].0@, tasks[i].1));
    if tasks.len() == 0 {
        assert(parts =~= Seq::<Seq<char>>::empty());
    } else {
        let prev = tasks.drop_last();
        law_structs_in_order(prev);
        let prev_parts = Seq::new(prev.len(), |i: int| task_struct_text(prev[i].0@, prev[i].1));
        let last = task_struct_text(tasks.last().0@, tasks.last().1);
        assert(parts =~= prev_parts.push(last));
        prev_parts.lemma_flatten_push(last);
    }
}

/// Writing pairs gives one entry per pair, in order: the `k`-th entry is the `k`-th key, then
/// `mid`, then the `k`-th value, then `end`.
pub proof fn law_pair_texts_one_per_pair(pairs: Seq<(String, String)>, mid: Seq<char>, end: Seq<char>)
    ensures
        pair_texts(pairs, mid, end).len() == pairs.len(),
        forall|k: int|
            0 <= k < pairs.len() ==> #[trigger] pair_texts(pairs, mid, end)[k] == pairs[k].0@ + mid + pairs[k].1@
                + end,
{
}

/// Putting `(k, v)` into the common input keeps the entries in place, gives every entry keyed
/// `k` the value `v` (the latest type wins, as a map's insert does), and adds `(k, v)` at the
/// end only where no entry had the key.
pub proof fn law_insert_field_sets_value(m: Seq<(String, String)>, kv: (String, String))
    ensures
        has_key(m, kv.0@) ==> insert_field(m, kv).len() == m.len(),
        !has_key(m, kv.0@) ==> insert_field(m, kv) == m.push(kv),
        forall|i: int|
            0 <= i < m.len() ==> (#[trigger] insert_field(m, kv)[i]).0 == m[i].0 && (if m[i].0@ == kv.0@ {
                insert_field(m, kv)[i].1 == kv.1
            } else {
                insert_field(m, kv)[i].1 == m[i].1
            }),
{
}

/// The text before the first `:` is a prefix of the text that holds no `:`; it is all of the
/// text where the text holds none, and else it is followed by the first `:`.
pub proof fn law_first_segment(s: Seq<char>)
    ensures
        first_segment(s).len() <= s.len(),
        first_segment(s) == s.take(first_segment(s).len() as int),
        forall|i: int| 0 <= i < first_segment(s).len() ==> #[trigger] first_segment(s)[i] != ':',
        first_segment(s).len() < s.len() ==> s[first_segment(s).len() as int] == ':',
    decreases s.len(),
{
    if s.len() > 0 && s[0] != ':' {
        let t = s.drop_first();
        law_first_segment(t);
        let f = first_segment(s);
        assert(f == seq![s[0]] + first_segment(t));
        assert(f =~= s.take(f.len() as int));
        assert forall|i: int| 0 <= i < f.len() implies #[trigger] f[i] != ':' by {
            if i > 0 {
                assert(f[i] == first_segment(t)[i - 1]);
            }
        }
        if f.len() < s.len() {
            assert(s[f.len() as int] == t[first_segment(t).len() as int]);
        }
    } else if s.len() > 0 {
        assert(first_segment(s) =~= s.take(0));
    } else {
        assert(first_segment(s) =~= s.take(0));
    }
}

/// A task's constructor takes, for each field it reads from the common input and in order,
/// `input.` followed by the text of that field before its first `:`, the arguments separated
/// by `,` and followed by `, `; it takes no argument where it reads none.
pub proof fn law_constructor_args_in_order(task: Task)
    ensures
        crate::codegen::task_new_fields(task).len() == 0 ==> constructor_args(task) == Seq::<char>::empty(),
        crate::codegen::task_new_fields(task).len() > 0 ==> constructor_args(task) == Seq::new(
            crate::codegen::task_new_fields(task).len(),
            |k: int|
                (if k == 0 { ""@ } else { ","@ }) + "input."@ + first_segment(
                    crate::codegen::task_new_fields(task)[k].0@ + ":"@ + crate::codegen::task_new_fields(task)[k].1@
                        + ""@,
                ),
        ).flatten() + ", "@,
{
    reveal_strlit("");
    let fields = task_new_fields(task);
    let texts = pair_texts(fields, ":"@, ""@);
    if fields.len() > 0 {
        let args = texts.map_values(|f: Seq<char>| "input."@ + first_segment(f));
        law_join_lists_parts(args, ","@);
        let a = Seq::new(args.len(), |k: int| if k == 0 { args[0] } else { ","@ + args[k] });
        let b = Seq::new(
            fields.len(),
            |k: int| (if k == 0 { ""@ } else { ","@ }) + "input."@ + first_segment(fields[k].0@ + ":"@ + fields[k].1@ + ""@),
        );
        assert forall|k: int| 0 <= k < a.len() implies #[trigger] a[k] == b[k] by {
            if k == 0 {
                assert(b[k] =~= "input."@ + first_segment(fields[k].0@ + ":"@ + fields[k].1@ + ""@));
            } else {
                assert(b[k] =~= ","@ + ("input."@ + first_segment(fields[k].0@ + ":"@ + fields[k].1@ + ""@)));
            }
        }
        assert(a =~= b);
    }
}

} // verus!
