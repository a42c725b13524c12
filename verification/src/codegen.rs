use vstd::prelude::*;

use crate::model::{Composer, ComposerError, Task, Workflow};
use crate::text::{
    ascii_chars, ascii_lower, ascii_upper, binary_search_outcome, binary_search_strings, sorted_strings, char_to_uppercase, decimal, decimal_string,
    first_segment, first_segment_of, join, join_strings, lowercase, to_lowercase, uppercase, views,
};

verus! {

/// The macro definitions that head every generated main file.
pub const MACROS: &'static str = "use serde_json::Value;
use serde_derive::{Serialize, Deserialize};
use std::collections::HashMap;

macro_rules! make_input_struct {
    (
        $x:ident,
        // list of derive macros
        [$($visibality:vis $element:ident : $ty:ty),*],
        // list of derive macros
        [$($der:ident),*]
) => {
        #[derive($($der),*)]
        struct $x { $($visibality  $element: $ty),*}
    }
}

macro_rules! make_main_struct {
    (
        $name:ident,
        $input:ty,
        [$($der:ident),*],
        // list of attributes
        [$($key:ident : $val:expr),*]
) => {
        #[derive($($der),*)]
        $(
            #[$key = $val]
        )*
        struct $name {
            action_name: String,
            pub input: $input,
            pub output: Value,
        }
        impl $name{
            pub fn output(&self) -> Value {
                self.output.clone()
            }
        }
    }
}

macro_rules! impl_new {
    (
        $name:ident,
        $input:ident,
        []
    ) => {
        impl $name{
            pub fn new(action_name:String) -> Self{
                Self{
                    action_name,
                    input: $input{
                        ..Default::default()
                    },
                    ..Default::default()
                }      
            }
        }
    };
    (
        $name:ident,
        $input:ident,
        [$($element:ident : $ty:ty),*]
    ) => {
        impl $name{
            pub fn new($( $element: $ty),*, action_name:String) -> Self{
                Self{
                    action_name,
                    input: $input{
                        $($element),*,
                        ..Default::default()
                    },
                    ..Default::default()
                }      
            }
        }
    }
}

macro_rules! impl_setter {
    (
        $name:ty,
        [$($element:ident : $key:expr),*]
    ) => {
        impl $name{
            pub fn setter(&mut self, val: Value) {
                $(
                let value = val.get($key).unwrap();
                self.input.$element = serde_json::from_value(value.clone()).unwrap();
                )*
            }
        }
    }
}";

/// `s` with its first character replaced by that character's uppercase mapping.
pub open spec fn capitalized(s: Seq<char>) -> Seq<char> {
    if s.len() == 0 {
        Seq::empty()
    } else {
        uppercase(s[0]) + s.drop_first()
    }
}

/// The lowercase mapping of an ASCII name is its ASCII lowercase.
pub open spec fn ascii_lowercase_known(name: Seq<char>) -> bool {
    ascii_chars(name) ==> lowercase(name) == name.map_values(|c: char| ascii_lower(c))
}

/// For an ASCII task name, the lowercase mapping of its capitalized form is the name's ASCII
/// lowercase.
pub open spec fn ascii_variable_known(name: Seq<char>) -> bool {
    ascii_chars(name) ==> lowercase(capitalized(name)) == name.map_values(|c: char| ascii_lower(c))
}

/// `s` with its first character in ASCII upper case.
pub open spec fn ascii_capitalized(s: Seq<char>) -> Seq<char> {
    if s.len() == 0 {
        Seq::empty()
    } else {
        seq![ascii_upper(s[0])] + s.drop_first()
    }
}

/// The platform name that a task kind selects, compared without regard to letter case.
pub open spec fn kind_name(kind: Seq<char>) -> Option<Seq<char>> {
    platform_of(lowercase(kind))
}

/// The platform name that a lowercased task kind names.
pub open spec fn platform_of(k: Seq<char>) -> Option<Seq<char>> {
    if k == "openwhisk"@ {
        Some("OpenWhisk"@)
    } else if k == "polkadot"@ {
        Some("Polkadot"@)
    } else {
        None
    }
}

/// Each pair written as its key, `mid`, its value and `end`.
pub open spec fn pair_texts(pairs: Seq<(String, String)>, mid: Seq<char>, end: Seq<char>) -> Seq<Seq<char>> {
    pairs.map_values(|p: (String, String)| p.0@ + mid + p.1@ + end)
}

/// A list of entries in square brackets, as the generated macros take them: `[` alone
/// where there are no entries.
pub open spec fn bracketed(entries: Seq<Seq<char>>) -> Seq<char> {
    if entries.len() == 0 {
        "["@
    } else {
        "["@ + join(entries, ","@) + "]"@
    }
}

/// The attribute list of a task: `[key:"value",...]`.
pub open spec fn attributes_text(attributes: Seq<(String, String)>) -> Seq<char> {
    bracketed(pair_texts(attributes, ":\""@, "\""@))
}

/// The first field pair that the task takes over from each task it depends on.
pub open spec fn dependency_fields(task: Task) -> Seq<(String, String)> {
    task.depend_on@.map_values(|d: (String, Vec<(String, String)>)| d.1@[0])
}

/// The names of the fields that the task takes over from the tasks it depends on.
pub open spec fn dependency_names(task: Task) -> Seq<Seq<char>> {
    dependency_fields(task).map_values(|p: (String, String)| p.0@)
}

/// The input fields whose binary-search outcome (at the same place in `outcomes`) is `Err`.
pub open spec fn fields_with_err(args: Seq<(String, String)>, outcomes: Seq<Result<usize, usize>>) -> Seq<
    (String, String),
>
    decreases args.len(),
{
    if args.len() == 0 {
        Seq::empty()
    } else {
        let rest = fields_with_err(args.drop_last(), outcomes.drop_last());
        if outcomes.last() is Err {
            rest.push(args.last())
        } else {
            rest
        }
    }
}

/// The input fields that the binary search over `depend` does not find: those the task
/// takes from the common input.
pub open spec fn new_fields(args: Seq<(String, String)>, depend: Seq<Seq<char>>) -> Seq<(String, String)>
    decreases args.len(),
{
    if args.len() == 0 {
        Seq::empty()
    } else {
        let rest = new_fields(args.drop_last(), depend);
        if binary_search_outcome(depend, args.last().0@) is Err {
            rest.push(args.last())
        } else {
            rest
        }
    }
}

/// The input fields whose names are not among `depend`.
pub open spec fn undelivered(args: Seq<(String, String)>, depend: Seq<Seq<char>>) -> Seq<(String, String)>
    decreases args.len(),
{
    if args.len() == 0 {
        Seq::empty()
    } else {
        let rest = undelivered(args.drop_last(), depend);
        if depend.contains(args.last().0@) {
            rest
        } else {
            rest.push(args.last())
        }
    }
}

/// Where a task's dependency field names are sorted, the fields it takes from the common
/// input are exactly its input fields that no dependency supplies.
pub open spec fn new_fields_undelivered(task: Task) -> bool {
    sorted_strings(dependency_names(task)) ==> task_new_fields(task) == undelivered(
        task.input_args@,
        dependency_names(task),
    )
}

/// The input fields of a task that come from the common input.
pub open spec fn task_new_fields(task: Task) -> Seq<(String, String)> {
    new_fields(task.input_args@, dependency_names(task))
}

/// `m` with `(k, v)` put in: the value of every entry keyed `k` replaced where there is
/// one, else the pair added at the end.
pub open spec fn insert_field(m: Seq<(String, String)>, kv: (String, String)) -> Seq<(String, String)> {
    if exists|i: int| 0 <= i < m.len() && #[trigger] m[i].0@ == kv.0@ {
        m.map_values(|e: (String, String)| if e.0@ == kv.0@ { (e.0, kv.1) } else { e })
    } else {
        m.push(kv)
    }
}

/// `m` with every pair of `fields` put in, in order.
pub open spec fn insert_fields(m: Seq<(String, String)>, fields: Seq<(String, String)>) -> Seq<(String, String)>
    decreases fields.len(),
{
    if fields.len() == 0 {
        m
    } else {
        insert_field(insert_fields(m, fields.drop_last()), fields.last())
    }
}

/// The fields of the common input of the workflow: those of every task that come from it.
pub open spec fn common_inputs(tasks: Seq<(String, Task)>) -> Seq<(String, String)>
    decreases tasks.len(),
{
    if tasks.len() == 0 {
        Seq::empty()
    } else {
        insert_fields(common_inputs(tasks.drop_last()), task_new_fields(tasks.last().1))
    }
}

/// The closing of an input struct's field list; nothing where it has no fields.
pub open spec fn field_list_end(fields: Seq<(String, String)>) -> Seq<char> {
    if fields.len() == 0 {
        Seq::empty()
    } else {
        join(pair_texts(fields, ":"@, ""@), ","@) + "],\n\t[Debug, Clone, Default, Serialize, Deserialize]);"@
    }
}

/// The input struct of a task.
pub open spec fn input_struct_text(struct_name: Seq<char>, args: Seq<(String, String)>) -> Seq<char> {
    "make_input_struct!(\n    "@ + struct_name + "Input,\n    ["@ + field_list_end(args)
}

/// The struct declarations that the generated file holds for one task.
pub open spec fn task_struct_text(name: Seq<char>, task: Task) -> Seq<char> {
    let tn = capitalized(name);
    "\n"@ + input_struct_text(tn, task.input_args@) + "\nmake_main_struct!(\n    "@ + tn + ",\n    "@ + tn
        + "Input,\n    [Debug, Clone, Default, Serialize, Deserialize, "@ + kind_name(task.kind@).unwrap()
        + "],\n    "@ + attributes_text(task.attributes@) + "\n);\nimpl_new!(\n    "@ + tn + ",\n    "@ + tn
        + "Input,\n    ["@ + join(pair_texts(task_new_fields(task), ":"@, ""@), ","@)
        + "]\n);\nimpl_setter!("@ + tn + ", ["@ + join(pair_texts(dependency_fields(task), ":\""@, "\""@), ","@)
        + "]);\n"@
}

/// The constructor arguments that a task takes from the common input.
pub open spec fn constructor_args(task: Task) -> Seq<char> {
    let fields = pair_texts(task_new_fields(task), ":"@, ""@);
    if fields.len() == 0 {
        Seq::empty()
    } else {
        join(fields.map_values(|f: Seq<char>| "input."@ + first_segment(f)), ","@) + ", "@
    }
}

/// The lines of the generated main function that build one task and add it to the graph.
pub open spec fn task_constructor_text(name: Seq<char>, task: Task) -> Seq<char> {
    let tn = capitalized(name);
    let low = lowercase(tn);
    "\tlet "@ + low + " = "@ + tn + "::new("@ + constructor_args(task) + "\""@ + task.action_name@
        + "\".to_string());\n\tlet "@ + low + "_index = workflow::add_node(Box::new("@ + low + "));\n"@
}

/// The struct declarations of all tasks, in order.
pub open spec fn structs_text(tasks: Seq<(String, Task)>) -> Seq<char>
    decreases tasks.len(),
{
    if tasks.len() == 0 {
        Seq::empty()
    } else {
        structs_text(tasks.drop_last()) + task_struct_text(tasks.last().0@, tasks.last().1)
    }
}

/// The constructor lines of all tasks, in order.
pub open spec fn constructors_text(tasks: Seq<(String, Task)>) -> Seq<char>
    decreases tasks.len(),
{
    if tasks.len() == 0 {
        Seq::empty()
    } else {
        constructors_text(tasks.drop_last()) + task_constructor_text(tasks.last().0@, tasks.last().1)
    }
}

/// The common input struct of the workflow.
pub open spec fn common_input_text(common: Seq<(String, String)>) -> Seq<char> {
    "\nmake_input_struct!(\n\tInput,\n\t["@ + field_list_end(common)
}

/// The first text of `get_custom_structs`: every declaration the generated file needs.
pub open spec fn custom_structs_text(tasks: Seq<(String, Task)>) -> Seq<char> {
    structs_text(tasks) + "\n"@ + common_input_text(common_inputs(tasks))
}

/// The tasks can be written out: each kind names a platform, and each dependency
/// takes over at least one field.
pub open spec fn tasks_writable(tasks: Seq<(String, Task)>) -> bool {
    &&& forall|i: int| 0 <= i < tasks.len() ==> (#[trigger] kind_name(tasks[i].1.kind@)) is Some
    &&& dependencies_nonempty(tasks)
}

/// Each dependency of each task takes over at least one field.
pub open spec fn dependencies_nonempty(tasks: Seq<(String, Task)>) -> bool {
    forall|i: int, j: int|
        0 <= i < tasks.len() && 0 <= j < tasks[i].1.depend_on@.len()
            ==> (#[trigger] tasks[i].1.depend_on@[j]).1@.len() > 0
}

/// The task that `tasks` holds under `name`; the first where there are several.
pub open spec fn task_named(tasks: Seq<(String, Task)>, name: Seq<char>) -> Option<Task>
    decreases tasks.len(),
{
    if tasks.len() == 0 {
        None
    } else {
        match task_named(tasks.drop_last(), name) {
            Some(t) => Some(t),
            None => if tasks.last().0@ == name { Some(tasks.last().1) } else { None },
        }
    }
}

/// The graph edge from the task named `from` to the task named `to`.
pub open spec fn edge_text(from: Seq<char>, to: Seq<char>) -> Seq<char> {
    "\t\t("@ + lowercase(from) + "_index, "@ + lowercase(to) + "_index),\n"@
}

/// The edges between neighbours of the flow, in order.
pub open spec fn edges_text(flow: Seq<String>) -> Seq<char>
    decreases flow.len(),
{
    if flow.len() < 2 {
        Seq::empty()
    } else {
        edges_text(flow.drop_last()) + edge_text(flow[flow.len() - 2]@, flow.last()@)
    }
}

/// The pipe steps through the named tasks, in order.
pub open spec fn pipes_text(names: Seq<String>) -> Seq<char>
    decreases names.len(),
{
    if names.len() == 0 {
        Seq::empty()
    } else {
        pipes_text(names.drop_last()) + "\t\t.pipe("@ + lowercase(names.last()@) + "_index)?\n"@
    }
}

/// The step that ends the chain at the task `name`: it terminates on its own output where
/// the task depends on at most one task, else it is piped and the chain ends with no output.
pub open spec fn terminal_text(name: Seq<char>, task: Task) -> Seq<char> {
    if task.depend_on@.len() <= 1 {
        "\t\t.term(Some("@ + lowercase(name) + "_index))?;\n"@
    } else {
        "\t\t.pipe("@ + lowercase(name) + "_index)?\n\t\t.term(None)?;\n"@
    }
}

/// The execution chain after the first task of the flow.
pub open spec fn chain_text(tasks: Seq<(String, Task)>, flow: Seq<String>) -> Seq<char> {
    if flow.len() < 2 {
        Seq::empty()
    } else {
        pipes_text(flow.subrange(1, flow.len() - 1)) + terminal_text(
            flow.last()@,
            task_named(tasks, flow.last()@).unwrap(),
        )
    }
}

/// The text of `get_workflow_execute_code`: the graph's edges, then the execution chain.
pub open spec fn execute_code_text(tasks: Seq<(String, Task)>, flow: Seq<String>) -> Seq<char> {
    "\tworkflow.add_edges(&[\n"@ + edges_text(flow) + "\t]);\n\n"@ + "\tlet result = workflow\n\t\t.int()?\n"@
        + chain_text(tasks, flow)
}

/// The flow can be written out: it is not empty, and where it has two tasks or more,
/// the last one is a task of the workflow.
pub open spec fn flow_writable(tasks: Seq<(String, Task)>, flow: Seq<String>) -> bool {
    &&& flow.len() > 0
    &&& flow.len() >= 2 ==> task_named(tasks, flow.last()@) is Some
}

/// The tasks of the first workflow; none where there is no workflow.
pub open spec fn first_workflow_tasks(workflows: Seq<Workflow>) -> Seq<(String, Task)> {
    if workflows.len() > 0 {
        workflows[0].tasks@
    } else {
        Seq::empty()
    }
}

/// The whole generated main file.
pub open spec fn main_file_text(tasks: Seq<(String, Task)>, flow: Seq<String>) -> Seq<char> {
    MACROS@ + "\n"@ + custom_structs_text(tasks)
        + "\n\n#[allow(dead_code, unused)]\npub fn main(args: Value) -> Result<Value, String> {\n    const LIMIT: usize = "@
        + decimal(tasks.len()) + ";\n    let mut workflow = WorkflowGraph::new(LIMIT);\n    let input: Input = serde_json::from_value(args).map_err(|e| e.to_string())?;\n\n"@
        + constructors_text(tasks) + "\n"@ + execute_code_text(tasks, flow)
        + "\n    let result = serde_json::to_value(result).unwrap();\n    Ok(result)\n}\n"@
}

/// Writes each pair as its key, `mid`, its value and `end`.
fn pair_texts_of(pairs: &Vec<(String, String)>, mid: &str, end: &str) -> (res: Vec<String>)
    ensures
        views(res@) == pair_texts(pairs@, mid@, end@),
{
    let mut res: Vec<String> = Vec::new();
    let n = pairs.len();
    let mut i: usize = 0;
    while i < n
        invariant
            n == pairs@.len(),
            i <= n,
            views(res@) == pair_texts(pairs@.take(i as int), mid@, end@),
        decreases n - i,
    {
        let mut t = pairs[i].0.clone();
        t.append(mid);
        t.append(pairs[i].1.as_str());
        t.append(end);
        let ghost before = res@;
        assert(t@ == pairs@[i as int].0@ + mid@ + pairs@[i as int].1@ + end@);
        res.push(t);
        assert(res@ == before.push(t));
        assert(views(res@) =~= views(before).push(t@));
        assert(pairs@.take(i + 1) =~= pairs@.take(i as int).push(pairs@[i as int]));
        assert(pair_texts(pairs@.take(i + 1), mid@, end@) =~= pair_texts(pairs@.take(i as int), mid@, end@).push(t@));
        i = i + 1;
    }
    assert(pairs@.take(n as int) =~= pairs@);
    res
}

/// Writes the entries as a bracketed list.
fn bracketed_of(entries: &Vec<String>) -> (res: String)
    ensures
        res@ == bracketed(views(entries@)),
{
    let mut res = String::from_str("[");
    if entries.len() > 0 {
        let body = join_strings(entries, ",");
        res.append(body.as_str());
        res.append("]");
    }
    res
}

/// The macro text opens with the import of the JSON value type, defines the four macros that
/// the generated code calls (`make_input_struct`, `make_main_struct`, `impl_new`,
/// `impl_setter`), and ends with a closing brace.
pub proof fn law_macros_shape()
    ensures
        MACROS@.subrange(0, 22) == "use serde_json::Value;"@,
        MACROS@.subrange(99, 131) == "macro_rules! make_input_struct {"@,
        MACROS@.subrange(402, 433) == "macro_rules! make_main_struct {"@,
        MACROS@.subrange(921, 944) == "macro_rules! impl_new {"@,
        MACROS@.subrange(1829, 1855) == "macro_rules! impl_setter {"@,
        MACROS@.len() == 2211,
        MACROS@[2210] == '}',
{
    reveal_strlit("use serde_json::Value;
use serde_derive::{Serialize, Deserialize};
use std::collections::HashMap;

macro_rules! make_input_struct {
    (
        $x:ident,
        // list of derive macros
        [$($visibality:vis $element:ident : $ty:ty),*],
        // list of derive macros
        [$($der:ident),*]
) => {
        #[derive($($der),*)]
        struct $x { $($visibality  $element: $ty),*}
    }
}

macro_rules! make_main_struct {
    (
        $name:ident,
        $input:ty,
        [$($der:ident),*],
        // list of attributes
        [$($key:ident : $val:expr),*]
) => {
        #[derive($($der),*)]
        $(
            #[$key = $val]
        )*
        struct $name {
            action_name: String,
            pub input: $input,
            pub output: Value,
        }
        impl $name{
            pub fn output(&self) -> Value {
                self.output.clone()
            }
        }
    }
}

macro_rules! impl_new {
    (
        $name:ident,
        $input:ident,
        []
    ) => {
        impl $name{
            pub fn new(action_name:String) -> Self{
                Self{
                    action_name,
                    input: $input{
                        ..Default::default()
                    },
                    ..Default::default()
                }      
            }
        }
    };
    (
        $name:ident,
        $input:ident,
        [$($element:ident : $ty:ty),*]
    ) => {
        impl $name{
            pub fn new($( $element: $ty),*, action_name:String) -> Self{
                Self{
                    action_name,
                    input: $input{
                        $($element),*,
                        ..Default::default()
                    },
                    ..Default::default()
                }      
            }
        }
    }
}

macro_rules! impl_setter {
    (
        $name:ty,
        [$($element:ident : $key:expr),*]
    ) => {
        impl $name{
            pub fn setter(&mut self, val: Value) {
                $(
                let value = val.get($key).unwrap();
                self.input.$element = serde_json::from_value(value.clone()).unwrap();
                )*
            }
        }
    }
}");
    reveal_strlit("use serde_json::Value;");
    reveal_strlit("macro_rules! make_input_struct {");
    reveal_strlit("macro_rules! make_main_struct {");
    reveal_strlit("macro_rules! impl_new {");
    reveal_strlit("macro_rules! impl_setter {");
    assert(MACROS@.subrange(0, 22) =~= "use serde_json::Value;"@);
    assert(MACROS@.subrange(99, 131) =~= "macro_rules! make_input_struct {"@);
    assert(MACROS@.subrange(402, 433) =~= "macro_rules! make_main_struct {"@);
    assert(MACROS@.subrange(921, 944) =~= "macro_rules! impl_new {"@);
    assert(MACROS@.subrange(1829, 1855) =~= "macro_rules! impl_setter {"@);
}

/// `s` with its first character replaced by the text `first`.
pub fn replace_first(first: &str, s: &str) -> (res: String)
    requires
        s@.len() > 0,
    ensures
        res@ == first@ + s@.drop_first(),
{
    let n = s.unicode_len();
    let mut res = String::from_str(first);
    res.append(s.substring_char(1, n));
    res
}

/// The platform that a lowercased task kind names: `OpenWhisk` for `openwhisk`, `Polkadot`
/// for `polkadot`, and `NotFound` for anything else.
pub fn platform_name(lowered: &str) -> (res: Result<String, ComposerError>)
    ensures
        match platform_of(lowered@) {
            Some(name) => res is Ok && res->Ok_0@ == name,
            None => res == Err::<String, ComposerError>(ComposerError::NotFound),
        },
{
    let k = String::from_str(lowered);
    if k == String::from_str("openwhisk") {
        Ok(String::from_str("OpenWhisk"))
    } else if k == String::from_str("polkadot") {
        Ok(String::from_str("Polkadot"))
    } else {
        Err(ComposerError::NotFound)
    }
}

impl Composer {
    /// `s` with its first character in upper case; the empty string stays empty.
    pub fn capitalize(&self, s: &str) -> (res: String)
        ensures
            res@ == capitalized(s@),
            ascii_chars(s@) ==> res@ == ascii_capitalized(s@),
    {
        let n = s.unicode_len();
        if n == 0 {
            String::new()
        } else {
            let first = char_to_uppercase(s.get_char(0));
            replace_first(first.as_str(), s)
        }
    }

    /// The macro definitions that head every generated main file.
    pub fn get_macros(&self) -> (res: String)
        ensures
            res@ == MACROS@,
    {
        String::from_str(MACROS)
    }

    /// The attributes of a task as the list that the main struct macro takes.
    pub fn get_attributes(&self, task: &Vec<(String, String)>) -> (res: String)
        ensures
            res@ == attributes_text(task@),
    {
        let entries = pair_texts_of(task, ":\"", "\"");
        bracketed_of(&entries)
    }

    /// The platform that a task kind names, without regard to letter case.
    fn get_kind(&self, kind: &str) -> (res: Result<String, ComposerError>)
        ensures
            match kind_name(kind@) {
                Some(name) => res is Ok && res->Ok_0@ == name,
                None => res == Err::<String, ComposerError>(ComposerError::NotFound),
            },
    {
        let k = to_lowercase(kind);
        platform_name(k.as_str())
    }
}

/// Once a prefix of `tasks` holds `name`, `tasks` gives the same task for it.
proof fn lemma_task_named_prefix(tasks: Seq<(String, Task)>, k: int, name: Seq<char>)
    requires
        0 <= k <= tasks.len(),
        task_named(tasks.take(k), name) is Some,
    ensures
        task_named(tasks, name) == task_named(tasks.take(k), name),
    decreases tasks.len() - k,
{
    if k < tasks.len() {
        assert(tasks.take(k + 1).drop_last() =~= tasks.take(k));
        lemma_task_named_prefix(tasks, k + 1, name);
    } else {
        assert(tasks.take(k) =~= tasks);
    }
}

/// The task that `tasks` holds under `name`, the first where there are several.
fn find_task<'a>(tasks: &'a Vec<(String, Task)>, name: &String) -> (res: Option<&'a Task>)
    ensures
        match res {
            Some(t) => task_named(tasks@, name@) == Some(*t),
            None => task_named(tasks@, name@) is None,
        },
{
    let n = tasks.len();
    let mut i: usize = 0;
    while i < n
        invariant
            n == tasks@.len(),
            i <= n,
            task_named(tasks@.take(i as int), name@) is None,
        decreases n - i,
    {
        assert(tasks@.take(i + 1).drop_last() =~= tasks@.take(i as int));
        if tasks[i].0 == *name {
            proof {
                lemma_task_named_prefix(tasks@, i + 1, name@);
            }
            return Some(&tasks[i].1);
        }
        i = i + 1;
    }
    assert(tasks@.take(n as int) =~= tasks@);
    None
}

impl Composer {
    /// The code of the generated main function that links the tasks in the order of `flow`
    /// and runs them: one edge between each pair of neighbours, then a pipe through each task
    /// after the first, the last one ending the chain. The tasks of the first workflow are
    /// read only where the flow has two tasks or more, to end the chain.
    pub fn get_workflow_execute_code(&self, flow: &Vec<String>) -> (res: String)
        requires
            flow_writable(first_workflow_tasks(self.workflows@), flow@),
        ensures
            res@ == execute_code_text(first_workflow_tasks(self.workflows@), flow@),
            flow@.len() >= 2 ==> forall|k: int| 0 <= k < flow@.len() ==> #[trigger] ascii_lowercase_known(flow@[k]@),
    {
        let n = flow.len();
        let mut edges = String::from_str("\tworkflow.add_edges(&[\n");
        let mut chain = String::new();
        let mut i: usize = 0;
        assert(flow@.take(1).len() < 2);
        assert(flow@.subrange(1, 1).len() == 0);
        while i + 1 < n - 1
            invariant
                n == flow@.len(),
                n > 0,
                i + 1 <= n,
                n >= 2 ==> i + 2 <= n,
                edges@ == "\tworkflow.add_edges(&[\n"@ + edges_text(flow@.take(i + 1)),
                chain@ == pipes_text(flow@.subrange(1, i + 1)),
                forall|k: int| 0 <= k < i ==> #[trigger] ascii_lowercase_known(flow@[k]@),
            decreases n - i,
        {
            let from = to_lowercase(flow[i].as_str());
            let to = to_lowercase(flow[i + 1].as_str());
            edges.append("\t\t(");
            edges.append(from.as_str());
            edges.append("_index, ");
            edges.append(to.as_str());
            edges.append("_index),\n");
            chain.append("\t\t.pipe(");
            chain.append(to.as_str());
            chain.append("_index)?\n");
            proof {
                let t = flow@.take(i + 2);
                assert(t.drop_last() =~= flow@.take(i + 1));
                assert(t[t.len() - 2] == flow@[i as int]);
                let p = flow@.subrange(1, i + 2);
                assert(p.drop_last() =~= flow@.subrange(1, i + 1));
                assert(p.last() == flow@[i + 1]);
            }
            i = i + 1;
        }
        if n >= 2 {
            let from = to_lowercase(flow[i].as_str());
            let to = to_lowercase(flow[i + 1].as_str());
            edges.append("\t\t(");
            edges.append(from.as_str());
            edges.append("_index, ");
            edges.append(to.as_str());
            edges.append("_index),\n");
            proof {
                let t = flow@.take(i + 2);
                assert(t.drop_last() =~= flow@.take(i + 1));
                assert(t[t.len() - 2] == flow@[i as int]);
                assert(t =~= flow@);
            }
            assert(self.workflows@.len() > 0);
            let tasks = &self.workflows[0].tasks;
            let task = find_task(tasks, &flow[n - 1]);
            let task = task.unwrap();
            if task.depend_on.len() <= 1 {
                chain.append("\t\t.term(Some(");
                chain.append(to.as_str());
                chain.append("_index))?;\n");
            } else {
                chain.append("\t\t.pipe(");
                chain.append(to.as_str());
                chain.append("_index)?\n\t\t.term(None)?;\n");
            }
        } else {
            assert(flow@.take(1) =~= flow@);
        }
        edges.append("\t]);\n\n");
        edges.append("\tlet result = workflow\n\t\t.int()?\n");
        edges.append(chain.as_str());
        edges
    }
}

/// The closing of an input struct's field list.
fn field_list_end_of(fields: &Vec<(String, String)>) -> (res: String)
    ensures
        res@ == field_list_end(fields@),
{
    if fields.len() == 0 {
        String::new()
    } else {
        let texts = pair_texts_of(fields, ":", "");
        let mut res = join_strings(&texts, ",");
        res.append("],\n\t[Debug, Clone, Default, Serialize, Deserialize]);");
        res
    }
}

/// The names and the setter entries of the fields that a task takes over from the tasks it
/// depends on.
fn dependency_texts(task: &Task) -> (res: (Vec<String>, Vec<String>))
    requires
        forall|j: int| 0 <= j < task.depend_on@.len() ==> (#[trigger] task.depend_on@[j]).1@.len() > 0,
    ensures
        views(res.0@) == dependency_names(*task),
        views(res.1@) == pair_texts(dependency_fields(*task), ":\""@, "\""@),
{
    let mut fields: Vec<(String, String)> = Vec::new();
    let mut names: Vec<String> = Vec::new();
    let n = task.depend_on.len();
    let mut i: usize = 0;
    while i < n
        invariant
            n == task.depend_on@.len(),
            i <= n,
            forall|j: int| 0 <= j < task.depend_on@.len() ==> (#[trigger] task.depend_on@[j]).1@.len() > 0,
            fields@ == dependency_fields(*task).take(i as int),
            views(names@) == dependency_names(*task).take(i as int),
        decreases n - i,
    {
        let first = &task.depend_on[i].1[0];
        let ghost before = names@;
        fields.push((first.0.clone(), first.1.clone()));
        names.push(first.0.clone());
        assert(fields@ =~= dependency_fields(*task).take(i + 1));
        assert(views(names@) =~= views(before).push(first.0@));
        assert(views(names@) =~= dependency_names(*task).take(i + 1));
        i = i + 1;
    }
    assert(fields@ =~= dependency_fields(*task));
    assert(views(names@) =~= dependency_names(*task));
    let setters = pair_texts_of(&fields, ":\"", "\"");
    (names, setters)
}

/// Puts `(k, v)` into the common input: replaces the value of every entry keyed `k`, or
/// adds the pair where there is none.
fn insert_common(common: &mut Vec<(String, String)>, kv: (String, String))
    ensures
        final(common)@ == insert_field(old(common)@, kv),
{
    let n = common.len();
    let mut found = false;
    let mut i: usize = 0;
    while i < n
        invariant
            n == common@.len(),
            n == old(common)@.len(),
            i <= n,
            found <==> exists|j: int| 0 <= j < i && #[trigger] old(common)@[j].0@ == kv.0@,
            forall|j: int| 0 <= j < i ==> #[trigger] common@[j] == (if old(common)@[j].0@ == kv.0@ {
                (old(common)@[j].0, kv.1)
            } else {
                old(common)@[j]
            }),
            forall|j: int| i <= j < n ==> #[trigger] common@[j] == old(common)@[j],
        decreases n - i,
    {
        if common[i].0 == kv.0 {
            let key = common[i].0.clone();
            common.set(i, (key, kv.1.clone()));
            found = true;
        }
        i = i + 1;
    }
    if found {
        assert(common@ =~= old(common)@.map_values(
            |e: (String, String)| if e.0@ == kv.0@ { (e.0, kv.1) } else { e },
        ));
    } else {
        assert(common@ =~= old(common)@);
        common.push(kv);
    }
}

/// The input fields that a task takes from the common input, given the outcome of the
/// binary search for each field's name among the dependency fields: those whose outcome is
/// `Err`, in order.
pub fn fields_outside(args: &Vec<(String, String)>, outcomes: &Vec<Result<usize, usize>>) -> (res: Vec<
    (String, String),
>)
    requires
        outcomes@.len() == args@.len(),
    ensures
        res@ == fields_with_err(args@, outcomes@),
{
    let mut res: Vec<(String, String)> = Vec::new();
    let n = args.len();
    let mut i: usize = 0;
    while i < n
        invariant
            n == args@.len(),
            n == outcomes@.len(),
            i <= n,
            res@ == fields_with_err(args@.take(i as int), outcomes@.take(i as int)),
        decreases n - i,
    {
        assert(args@.take(i + 1).drop_last() =~= args@.take(i as int));
        assert(outcomes@.take(i + 1).drop_last() =~= outcomes@.take(i as int));
        if outcomes[i].is_err() {
            res.push((args[i].0.clone(), args[i].1.clone()));
        }
        i = i + 1;
    }
    assert(args@.take(n as int) =~= args@);
    assert(outcomes@.take(n as int) =~= outcomes@);
    res
}

proof fn lemma_fields_outside_new(
    args: Seq<(String, String)>,
    outcomes: Seq<Result<usize, usize>>,
    depend: Seq<Seq<char>>,
)
    requires
        outcomes.len() == args.len(),
        forall|i: int| 0 <= i < args.len() ==> #[trigger] outcomes[i] == binary_search_outcome(depend, args[i].0@),
    ensures
        fields_with_err(args, outcomes) == new_fields(args, depend),
    decreases args.len(),
{
    if args.len() > 0 {
        let a = args.drop_last();
        let o = outcomes.drop_last();
        assert forall|i: int| 0 <= i < a.len() implies #[trigger] o[i] == binary_search_outcome(depend, a[i].0@) by {
            assert(o[i] == outcomes[i]);
        }
        lemma_fields_outside_new(a, o, depend);
        assert(outcomes[args.len() - 1] == binary_search_outcome(depend, args[args.len() - 1].0@));
    }
}

proof fn lemma_fields_outside_undelivered(
    args: Seq<(String, String)>,
    outcomes: Seq<Result<usize, usize>>,
    depend: Seq<Seq<char>>,
)
    requires
        outcomes.len() == args.len(),
        forall|i: int| 0 <= i < args.len() ==> (#[trigger] outcomes[i] is Ok <==> depend.contains(args[i].0@)),
    ensures
        fields_with_err(args, outcomes) == undelivered(args, depend),
    decreases args.len(),
{
    if args.len() > 0 {
        let a = args.drop_last();
        let o = outcomes.drop_last();
        assert forall|i: int| 0 <= i < a.len() implies (#[trigger] o[i] is Ok <==> depend.contains(a[i].0@)) by {
            assert(o[i] == outcomes[i]);
        }
        lemma_fields_outside_undelivered(a, o, depend);
        assert(outcomes[args.len() - 1] is Ok <==> depend.contains(args[args.len() - 1].0@));
    }
}

impl Composer {
    /// The declarations and the constructor lines that one task contributes, putting the
    /// fields that it takes from the common input into `common`.
    fn task_texts(&self, name: &String, task: &Task, common: &mut Vec<(String, String)>) -> (res: (
        String,
        String,
    ))
        requires
            kind_name(task.kind@) is Some,
            forall|j: int| 0 <= j < task.depend_on@.len() ==> (#[trigger] task.depend_on@[j]).1@.len() > 0,
        ensures
            res.0@ == task_struct_text(name@, *task),
            res.1@ == task_constructor_text(name@, *task),
            final(common)@ == insert_fields(old(common)@, task_new_fields(*task)),
            new_fields_undelivered(*task),
            ascii_variable_known(name@),
    {
        let tn = self.capitalize(name.as_str());
        let (depend, setters) = dependency_texts(task);
        let ghost depend_names = dependency_names(*task);
        let args = &task.input_args;
        let n = args.len();
        let mut outcomes: Vec<Result<usize, usize>> = Vec::new();
        let mut j: usize = 0;
        while j < n
            invariant
                n == args@.len(),
                j <= n,
                views(depend@) == depend_names,
                outcomes@.len() == j,
                forall|i: int| 0 <= i < j ==> #[trigger] outcomes@[i] == binary_search_outcome(
                    depend_names,
                    args@[i].0@,
                ),
                sorted_strings(depend_names) ==> forall|i: int| 0 <= i < j ==> (#[trigger] outcomes@[i] is Ok
                    <==> depend_names.contains(args@[i].0@)),
            decreases n - j,
        {
            outcomes.push(binary_search_strings(&depend, &args[j].0));
            j = j + 1;
        }
        let fresh = fields_outside(args, &outcomes);
        proof {
            lemma_fields_outside_new(args@, outcomes@, depend_names);
            if sorted_strings(depend_names) {
                lemma_fields_outside_undelivered(args@, outcomes@, depend_names);
            }
        }
        let m = fresh.len();
        let mut k: usize = 0;
        while k < m
            invariant
                m == fresh@.len(),
                k <= m,
                common@ == insert_fields(old(common)@, fresh@.take(k as int)),
            decreases m - k,
        {
            assert(fresh@.take(k + 1).drop_last() =~= fresh@.take(k as int));
            insert_common(common, (fresh[k].0.clone(), fresh[k].1.clone()));
            k = k + 1;
        }
        assert(fresh@.take(m as int) =~= fresh@);
        let new_texts = pair_texts_of(&fresh, ":", "");
        let kind = match self.get_kind(task.kind.as_str()) {
            Ok(k) => k,
            Err(_) => String::new(),
        };
        let attributes = self.get_attributes(&task.attributes);

        let mut input = String::from_str("make_input_struct!(\n    ");
        input.append(tn.as_str());
        input.append("Input,\n    [");
        let list_end = field_list_end_of(args);
        input.append(list_end.as_str());

        let new_list = join_strings(&new_texts, ",");
        let setter_list = join_strings(&setters, ",");
        let mut decl = String::from_str("\n");
        decl.append(input.as_str());
        decl.append("\nmake_main_struct!(\n    ");
        decl.append(tn.as_str());
        decl.append(",\n    ");
        decl.append(tn.as_str());
        decl.append("Input,\n    [Debug, Clone, Default, Serialize, Deserialize, ");
        decl.append(kind.as_str());
        decl.append("],\n    ");
        decl.append(attributes.as_str());
        decl.append("\n);\nimpl_new!(\n    ");
        decl.append(tn.as_str());
        decl.append(",\n    ");
        decl.append(tn.as_str());
        decl.append("Input,\n    [");
        decl.append(new_list.as_str());
        decl.append("]\n);\nimpl_setter!(");
        decl.append(tn.as_str());
        decl.append(", [");
        decl.append(setter_list.as_str());
        decl.append("]);\n");

        let mut args_text = String::new();
        if new_texts.len() > 0 {
            let mut commons: Vec<String> = Vec::new();
            let m = new_texts.len();
            let mut k: usize = 0;
            while k < m
                invariant
                    m == new_texts@.len(),
                    k <= m,
                    views(commons@) == views(new_texts@).take(k as int).map_values(
                        |f: Seq<char>| "input."@ + first_segment(f),
                    ),
                decreases m - k,
            {
                let ghost before = commons@;
                let mut c = String::from_str("input.");
                let seg = first_segment_of(new_texts[k].as_str());
                c.append(seg.as_str());
                commons.push(c);
                assert(views(commons@) =~= views(before).push(c@));
                assert(views(commons@) =~= views(new_texts@).take(k + 1).map_values(
                    |f: Seq<char>| "input."@ + first_segment(f),
                ));
                k = k + 1;
            }
            assert(views(new_texts@).take(m as int) =~= views(new_texts@));
            args_text = join_strings(&commons, ",");
            args_text.append(", ");
        }

        let low = to_lowercase(tn.as_str());
        proof {
            if ascii_chars(name@) {
                crate::laws::law_ascii_names_agree(name@);
            }
        }
        let mut ctor = String::from_str("\tlet ");
        ctor.append(low.as_str());
        ctor.append(" = ");
        ctor.append(tn.as_str());
        ctor.append("::new(");
        ctor.append(args_text.as_str());
        ctor.append("\"");
        ctor.append(task.action_name.as_str());
        ctor.append("\".to_string());\n\tlet ");
        ctor.append(low.as_str());
        ctor.append("_index = workflow::add_node(Box::new(");
        ctor.append(low.as_str());
        ctor.append("));\n");
        (decl, ctor)
    }

    /// The Rust declarations and the main-function lines that the generated file needs for
    /// the first workflow: first the input and main struct of each task and the common input
    /// struct, then the lines that build each task and add it to the graph.
    pub fn get_custom_structs(&self) -> (res: Vec<String>)
        requires
            self.workflows@.len() > 0,
            tasks_writable(self.workflows@[0].tasks@),
        ensures
            res@.len() == 2,
            res@[0]@ == custom_structs_text(self.workflows@[0].tasks@),
            res@[1]@ == constructors_text(self.workflows@[0].tasks@),
            forall|i: int|
                0 <= i < self.workflows@[0].tasks@.len() ==> #[trigger] new_fields_undelivered(
                    self.workflows@[0].tasks@[i].1,
                ),
            forall|i: int|
                0 <= i < self.workflows@[0].tasks@.len() ==> #[trigger] ascii_variable_known(
                    self.workflows@[0].tasks@[i].0@,
                ),
    {
        let tasks = &self.workflows[0].tasks;
        let n = tasks.len();
        let mut common: Vec<(String, String)> = Vec::new();
        let mut structs = String::new();
        let mut ctors = String::new();
        let mut i: usize = 0;
        while i < n
            invariant
                n == tasks@.len(),
                i <= n,
                tasks_writable(tasks@),
                structs@ == structs_text(tasks@.take(i as int)),
                ctors@ == constructors_text(tasks@.take(i as int)),
                common@ == common_inputs(tasks@.take(i as int)),
                forall|k: int| 0 <= k < i ==> #[trigger] new_fields_undelivered(tasks@[k].1),
                forall|k: int| 0 <= k < i ==> #[trigger] ascii_variable_known(tasks@[k].0@),
            decreases n - i,
        {
            assert(tasks@.take(i + 1).drop_last() =~= tasks@.take(i as int));
            assert(kind_name(tasks@[i as int].1.kind@) is Some);
            assert(forall|j: int| 0 <= j < tasks@[i as int].1.depend_on@.len()
                ==> (#[trigger] tasks@[i as int].1.depend_on@[j]).1@.len() > 0);
            let (decl, ctor) = self.task_texts(&tasks[i].0, &tasks[i].1, &mut common);
            structs.append(decl.as_str());
            ctors.append(ctor.as_str());
            i = i + 1;
        }
        assert(tasks@.take(n as int) =~= tasks@);
        let mut input = String::from_str("\nmake_input_struct!(\n\tInput,\n\t[");
        let list_end = field_list_end_of(&common);
        input.append(list_end.as_str());
        structs.append("\n");
        structs.append(input.as_str());
        vec![structs, ctors]
    }
}

impl Composer {
    /// The whole main file of the generated package for the first workflow, its tasks run
    /// in the order of `flow`: the macros, the declarations, then the main function that
    /// builds the tasks, links them and runs them.
    pub fn generate_main_file_code(&self, flow: &Vec<String>) -> (res: String)
        requires
            self.workflows@.len() > 0,
            tasks_writable(self.workflows@[0].tasks@),
            flow_writable(self.workflows@[0].tasks@, flow@),
        ensures
            res@ == main_file_text(self.workflows@[0].tasks@, flow@),
    {
        let structs = self.get_custom_structs();
        let limit = decimal_string(self.workflows[0].tasks.len());
        let execute = self.get_workflow_execute_code(flow);
        let mut res = self.get_macros();
        res.append("\n");
        res.append(structs[0].as_str());
        res.append(
            "\n\n#[allow(dead_code, unused)]\npub fn main(args: Value) -> Result<Value, String> {\n    const LIMIT: usize = ",
        );
        res.append(limit.as_str());
        res.append(
            ";\n    let mut workflow = WorkflowGraph::new(LIMIT);\n    let input: Input = serde_json::from_value(args).map_err(|e| e.to_string())?;\n\n",
        );
        res.append(structs[1].as_str());
        res.append("\n");
        res.append(execute.as_str());
        res.append("\n    let result = serde_json::to_value(result).unwrap();\n    Ok(result)\n}\n");
        res
    }

    /// Whether every task of the first workflow has a kind that names a platform.
    fn kinds_known(&self) -> (res: bool)
        requires
            self.workflows@.len() > 0,
        ensures
            res == forall|i: int|
                0 <= i < self.workflows@[0].tasks@.len() ==> (#[trigger] kind_name(
                    self.workflows@[0].tasks@[i].1.kind@,
                )) is Some,
    {
        let tasks = &self.workflows[0].tasks;
        let n = tasks.len();
        let mut i: usize = 0;
        while i < n
            invariant
                n == tasks@.len(),
                i <= n,
                tasks@ == self.workflows@[0].tasks@,
                forall|j: int| 0 <= j < i ==> (#[trigger] kind_name(tasks@[j].1.kind@)) is Some,
            decreases n - i,
        {
            if self.get_kind(tasks[i].1.kind.as_str()).is_err() {
                assert(kind_name(tasks@[i as int].1.kind@) is None);
                return false;
            }
            i = i + 1;
        }
        true
    }

    /// `get_custom_structs` where every task kind names a platform; `None` where one does not.
    pub fn try_get_custom_structs(&self) -> (res: Option<Vec<String>>)
        requires
            self.workflows@.len() > 0,
            dependencies_nonempty(self.workflows@[0].tasks@),
        ensures
            res is Some <==> tasks_writable(self.workflows@[0].tasks@),
            res matches Some(v) ==> {
                &&& v@.len() == 2
                &&& v@[0]@ == custom_structs_text(self.workflows@[0].tasks@)
                &&& v@[1]@ == constructors_text(self.workflows@[0].tasks@)
            },
    {
        if self.kinds_known() {
            Some(self.get_custom_structs())
        } else {
            None
        }
    }

    /// `generate_main_file_code` where every task kind names a platform; `None` where one
    /// does not.
    pub fn try_generate_main_file_code(&self, flow: &Vec<String>) -> (res: Option<String>)
        requires
            self.workflows@.len() > 0,
            dependencies_nonempty(self.workflows@[0].tasks@),
            flow_writable(self.workflows@[0].tasks@, flow@),
        ensures
            res is Some <==> tasks_writable(self.workflows@[0].tasks@),
            res matches Some(text) ==> text@ == main_file_text(self.workflows@[0].tasks@, flow@),
    {
        if self.kinds_known() {
            Some(self.generate_main_file_code(flow))
        } else {
            None
        }
    }
}

} // verus!
