use composer::codegen::{fields_outside, platform_name, replace_first, MACROS};
use composer::model::{Composer, ComposerError, Task, Workflow};
use composer::text::{decimal_string, first_segment_of, join_strings};

fn s(x: &str) -> String {
    x.to_string()
}

fn pairs(items: &[(&str, &str)]) -> Vec<(String, String)> {
    items.iter().map(|(k, v)| (s(k), s(v))).collect()
}

fn task(kind: &str, action: &str, args: &[(&str, &str)], attrs: &[(&str, &str)], deps: &[(&str, &[(&str, &str)])]) -> Task {
    Task {
        kind: s(kind),
        action_name: s(action),
        input_args: pairs(args),
        attributes: pairs(attrs),
        depend_on: deps.iter().map(|(n, f)| (s(n), pairs(f))).collect(),
    }
}

fn composer_with(tasks: Vec<(String, Task)>) -> Composer {
    let mut c = Composer::default();
    c.add_workflow(s("payroll"), s("0.0.1"), tasks).unwrap();
    c
}

fn sample_tasks() -> Vec<(String, Task)> {
    vec![
        (s("employee_ids"), task("OpenWhisk", "employee_ids", &[("role", "String")], &[("api_host", "https://65.20.70.146:31001")], &[])),
        (s("getsalaries"), task("openwhisk", "getsalaries", &[("id", "i32")], &[], &[("employee_ids", &[("id", "ids")])])),
        (s("salary"), task("Polkadot", "salary", &[("salary", "u32"), ("role", "String")], &[("auth", "token"), ("x", "y")], &[("getsalaries", &[("salary", "salary")])])),
    ]
}

fn flow(names: &[&str]) -> Vec<String> {
    names.iter().map(|n| s(n)).collect()
}

const CUSTOM0: &str = "\nmake_input_struct!(\n    Employee_idsInput,\n    [role:String],\n\t[Debug, Clone, Default, Serialize, Deserialize]);\nmake_main_struct!(\n    Employee_ids,\n    Employee_idsInput,\n    [Debug, Clone, Default, Serialize, Deserialize, OpenWhisk],\n    [api_host:\"https://65.20.70.146:31001\"]\n);\nimpl_new!(\n    Employee_ids,\n    Employee_idsInput,\n    [role:String]\n);\nimpl_setter!(Employee_ids, []);\n\nmake_input_struct!(\n    GetsalariesInput,\n    [id:i32],\n\t[Debug, Clone, Default, Serialize, Deserialize]);\nmake_main_struct!(\n    Getsalaries,\n    GetsalariesInput,\n    [Debug, Clone, Default, Serialize, Deserialize, OpenWhisk],\n    [\n);\nimpl_new!(\n    Getsalaries,\n    GetsalariesInput,\n    []\n);\nimpl_setter!(Getsalaries, [id:\"ids\"]);\n\nmake_input_struct!(\n    SalaryInput,\n    [salary:u32,role:String],\n\t[Debug, Clone, Default, Serialize, Deserialize]);\nmake_main_struct!(\n    Salary,\n    SalaryInput,\n    [Debug, Clone, Default, Serialize, Deserialize, Polkadot],\n    [auth:\"token\",x:\"y\"]\n);\nimpl_new!(\n    Salary,\n    SalaryInput,\n    [role:String]\n);\nimpl_setter!(Salary, [salary:\"salary\"]);\n\n\nmake_input_struct!(\n\tInput,\n\t[role:String],\n\t[Debug, Clone, Default, Serialize, Deserialize]);";
const CUSTOM1: &str = "\tlet employee_ids = Employee_ids::new(input.role, \"employee_ids\".to_string());\n\tlet employee_ids_index = workflow::add_node(Box::new(employee_ids));\n\tlet getsalaries = Getsalaries::new(\"getsalaries\".to_string());\n\tlet getsalaries_index = workflow::add_node(Box::new(getsalaries));\n\tlet salary = Salary::new(input.role, \"salary\".to_string());\n\tlet salary_index = workflow::add_node(Box::new(salary));\n";
const EXEC: &str = "\tworkflow.add_edges(&[\n\t\t(employee_ids_index, getsalaries_index),\n\t\t(getsalaries_index, salary_index),\n\t]);\n\n\tlet result = workflow\n\t\t.int()?\n\t\t.pipe(getsalaries_index)?\n\t\t.term(Some(salary_index))?;\n";
const MAIN_REST: &str = "\n\nmake_input_struct!(\n    Employee_idsInput,\n    [role:String],\n\t[Debug, Clone, Default, Serialize, Deserialize]);\nmake_main_struct!(\n    Employee_ids,\n    Employee_idsInput,\n    [Debug, Clone, Default, Serialize, Deserialize, OpenWhisk],\n    [api_host:\"https://65.20.70.146:31001\"]\n);\nimpl_new!(\n    Employee_ids,\n    Employee_idsInput,\n    [role:String]\n);\nimpl_setter!(Employee_ids, []);\n\nmake_input_struct!(\n    GetsalariesInput,\n    [id:i32],\n\t[Debug, Clone, Default, Serialize, Deserialize]);\nmake_main_struct!(\n    Getsalaries,\n    GetsalariesInput,\n    [Debug, Clone, Default, Serialize, Deserialize, OpenWhisk],\n    [\n);\nimpl_new!(\n    Getsalaries,\n    GetsalariesInput,\n    []\n);\nimpl_setter!(Getsalaries, [id:\"ids\"]);\n\nmake_input_struct!(\n    SalaryInput,\n    [salary:u32,role:String],\n\t[Debug, Clone, Default, Serialize, Deserialize]);\nmake_main_struct!(\n    Salary,\n    SalaryInput,\n    [Debug, Clone, Default, Serialize, Deserialize, Polkadot],\n    [auth:\"token\",x:\"y\"]\n);\nimpl_new!(\n    Salary,\n    SalaryInput,\n    [role:String]\n);\nimpl_setter!(Salary, [salary:\"salary\"]);\n\n\nmake_input_struct!(\n\tInput,\n\t[role:String],\n\t[Debug, Clone, Default, Serialize, Deserialize]);\n\n#[allow(dead_code, unused)]\npub fn main(args: Value) -> Result<Value, String> {\n    const LIMIT: usize = 3;\n    let mut workflow = WorkflowGraph::new(LIMIT);\n    let input: Input = serde_json::from_value(args).map_err(|e| e.to_string())?;\n\n\tlet employee_ids = Employee_ids::new(input.role, \"employee_ids\".to_string());\n\tlet employee_ids_index = workflow::add_node(Box::new(employee_ids));\n\tlet getsalaries = Getsalaries::new(\"getsalaries\".to_string());\n\tlet getsalaries_index = workflow::add_node(Box::new(getsalaries));\n\tlet salary = Salary::new(input.role, \"salary\".to_string());\n\tlet salary_index = workflow::add_node(Box::new(salary));\n\n\tworkflow.add_edges(&[\n\t\t(employee_ids_index, getsalaries_index),\n\t\t(getsalaries_index, salary_index),\n\t]);\n\n\tlet result = workflow\n\t\t.int()?\n\t\t.pipe(getsalaries_index)?\n\t\t.term(Some(salary_index))?;\n\n    let result = serde_json::to_value(result).unwrap();\n    Ok(result)\n}\n";
const EXEC_TWO: &str = "\tworkflow.add_edges(&[\n\t\t(a_index, b_index),\n\t]);\n\n\tlet result = workflow\n\t\t.int()?\n\t\t.pipe(b_index)?\n\t\t.term(None)?;\n";
const EXEC_ONE: &str = "\tworkflow.add_edges(&[\n\t]);\n\n\tlet result = workflow\n\t\t.int()?\n";
const SHARED0: &str = "\nmake_input_struct!(\n    FirstInput,\n    [name:String],\n\t[Debug, Clone, Default, Serialize, Deserialize]);\nmake_main_struct!(\n    First,\n    FirstInput,\n    [Debug, Clone, Default, Serialize, Deserialize, OpenWhisk],\n    [\n);\nimpl_new!(\n    First,\n    FirstInput,\n    [name:String]\n);\nimpl_setter!(First, []);\n\nmake_input_struct!(\n    SecondInput,\n    [name:u64,age:u8],\n\t[Debug, Clone, Default, Serialize, Deserialize]);\nmake_main_struct!(\n    Second,\n    SecondInput,\n    [Debug, Clone, Default, Serialize, Deserialize, Polkadot],\n    [\n);\nimpl_new!(\n    Second,\n    SecondInput,\n    [name:u64,age:u8]\n);\nimpl_setter!(Second, []);\n\n\nmake_input_struct!(\n\tInput,\n\t[name:u64,age:u8],\n\t[Debug, Clone, Default, Serialize, Deserialize]);";
const SHARED1: &str = "\tlet first = First::new(input.name, \"f\".to_string());\n\tlet first_index = workflow::add_node(Box::new(first));\n\tlet second = Second::new(input.name,input.age, \"s\".to_string());\n\tlet second_index = workflow::add_node(Box::new(second));\n";
const SOLO0: &str = "\nmake_input_struct!(\n    SoloInput,\n    [\nmake_main_struct!(\n    Solo,\n    SoloInput,\n    [Debug, Clone, Default, Serialize, Deserialize, OpenWhisk],\n    [\n);\nimpl_new!(\n    Solo,\n    SoloInput,\n    []\n);\nimpl_setter!(Solo, []);\n\n\nmake_input_struct!(\n\tInput,\n\t[";
const SOLO1: &str = "\tlet solo = Solo::new(\"solo\".to_string());\n\tlet solo_index = workflow::add_node(Box::new(solo));\n";

#[test]
fn capitalize_upper_cases_first_letter() {
    let c = Composer::default();
    assert_eq!(c.capitalize("hello"), "Hello");
    assert_eq!(c.capitalize("employee_ids"), "Employee_ids");
    assert_eq!(c.capitalize("Already"), "Already");
    assert_eq!(c.capitalize("élan"), "Élan");
    assert_eq!(c.capitalize("ß"), "SS");
}

#[test]
fn capitalize_empty_string() {
    let c = Composer::default();
    assert_eq!(c.capitalize(""), "");
}

#[test]
fn get_macros_is_the_macro_text() {
    let c = Composer::default();
    let m = c.get_macros();
    assert_eq!(m, MACROS);
    assert!(m.starts_with("use serde_json::Value;\nuse serde_derive::{Serialize, Deserialize};"));
    for header in [
        "macro_rules! make_input_struct {",
        "macro_rules! make_main_struct {",
        "macro_rules! impl_new {",
        "macro_rules! impl_setter {",
    ] {
        assert!(m.contains(header));
    }
    assert!(!m.contains("{{") && !m.contains("}}"));
    assert_eq!(m.matches('{').count(), m.matches('}').count());
    assert_eq!(Composer::default().get_macros(), composer_with(sample_tasks()).get_macros());
    assert!(m.ends_with("            }\n        }\n    }\n}"));
}

#[test]
fn get_attributes_lists_quoted_values() {
    let c = Composer::default();
    assert_eq!(c.get_attributes(&pairs(&[("memory", "256")])), "[memory:\"256\"]");
    assert_eq!(c.get_attributes(&pairs(&[("a", "1"), ("b", "2")])), "[a:\"1\",b:\"2\"]");
}

#[test]
fn get_attributes_empty_is_open_bracket() {
    let c = Composer::default();
    assert_eq!(c.get_attributes(&Vec::new()), "[");
}

#[test]
fn get_custom_structs_sample_workflow() {
    let c = composer_with(sample_tasks());
    let res = c.get_custom_structs();
    assert_eq!(res.len(), 2);
    assert_eq!(res[0], CUSTOM0);
    assert_eq!(res[1], CUSTOM1);
}

#[test]
fn get_custom_structs_shared_field_declared_once() {
    let tasks = vec![
        (s("first"), task("openwhisk", "f", &[("name", "String")], &[], &[])),
        (s("second"), task("polkadot", "s", &[("name", "u64"), ("age", "u8")], &[], &[])),
    ];
    let res = composer_with(tasks).get_custom_structs();
    assert_eq!(res[0], SHARED0);
    assert_eq!(res[1], SHARED1);
    assert!(res[0].ends_with("Input,\n\t[name:u64,age:u8],\n\t[Debug, Clone, Default, Serialize, Deserialize]);"));
}

#[test]
fn get_custom_structs_task_without_inputs() {
    let tasks = vec![(s("solo"), task("OPENWHISK", "solo", &[], &[], &[]))];
    let res = composer_with(tasks).get_custom_structs();
    assert_eq!(res[0], SOLO0);
    assert_eq!(res[1], SOLO1);
}

#[test]
fn get_custom_structs_dependency_field_not_taken_from_input() {
    let tasks = vec![(s("sum"), task("openwhisk", "sum", &[("a", "i32"), ("b", "i32")], &[], &[("other", &[("b", "result")])]))];
    let res = composer_with(tasks).get_custom_structs();
    assert!(res[1].starts_with("\tlet sum = Sum::new(input.a, \"sum\".to_string());\n"));
    assert!(res[0].contains("impl_new!(\n    Sum,\n    SumInput,\n    [a:i32]\n);\nimpl_setter!(Sum, [b:\"result\"]);"));
}

#[test]
fn try_get_custom_structs_unknown_kind() {
    let tasks = vec![(s("solo"), task("lambda", "solo", &[], &[], &[]))];
    assert!(composer_with(tasks).try_get_custom_structs().is_none());
}

#[test]
fn try_get_custom_structs_known_kinds() {
    let res = composer_with(sample_tasks()).try_get_custom_structs().unwrap();
    assert_eq!(res[0], CUSTOM0);
    assert_eq!(res[1], CUSTOM1);
}

#[test]
fn get_workflow_execute_code_three_tasks() {
    let c = composer_with(sample_tasks());
    assert_eq!(c.get_workflow_execute_code(&flow(&["employee_ids", "getsalaries", "salary"])), EXEC);
}

#[test]
fn get_workflow_execute_code_last_task_with_two_dependencies() {
    let tasks = vec![
        (s("a"), task("openwhisk", "a", &[], &[], &[])),
        (s("b"), task("openwhisk", "b", &[("k", "u8")], &[], &[("a", &[("x", "y")]), ("c", &[("z", "w")])])),
    ];
    let c = composer_with(tasks);
    assert_eq!(c.get_workflow_execute_code(&flow(&["a", "b"])), EXEC_TWO);
    assert_eq!(c.get_workflow_execute_code(&flow(&["a"])), EXEC_ONE);
}

#[test]
fn get_workflow_execute_code_lowercases_names() {
    let tasks = vec![
        (s("Fetch"), task("openwhisk", "fetch", &[], &[], &[])),
        (s("Store"), task("openwhisk", "store", &[], &[], &[("Fetch", &[("x", "y")])])),
    ];
    let c = composer_with(tasks);
    assert_eq!(
        c.get_workflow_execute_code(&flow(&["Fetch", "Store"])),
        "\tworkflow.add_edges(&[\n\t\t(fetch_index, store_index),\n\t]);\n\n\tlet result = workflow\n\t\t.int()?\n\t\t.term(Some(store_index))?;\n"
    );
}

#[test]
fn generate_main_file_code_sample() {
    let c = composer_with(sample_tasks());
    let text = c.generate_main_file_code(&flow(&["employee_ids", "getsalaries", "salary"]));
    assert_eq!(text, format!("{}{}", MACROS, MAIN_REST));
    assert!(text.contains("    const LIMIT: usize = 3;\n"));
}

#[test]
fn try_generate_main_file_code_unknown_kind() {
    let tasks = vec![(s("solo"), task("docker", "solo", &[], &[], &[]))];
    assert!(composer_with(tasks).try_generate_main_file_code(&flow(&["solo"])).is_none());
    let c = composer_with(sample_tasks());
    let text = c.try_generate_main_file_code(&flow(&["employee_ids", "getsalaries", "salary"])).unwrap();
    assert_eq!(text, format!("{}{}", MACROS, MAIN_REST));
}

#[test]
fn kind_matching_ignores_case() {
    for kind in ["openwhisk", "OpenWhisk", "OPENWHISK"] {
        let tasks = vec![(s("solo"), task(kind, "solo", &[], &[], &[]))];
        assert!(composer_with(tasks).get_custom_structs()[0].contains("Serialize, Deserialize, OpenWhisk],"));
    }
    let tasks = vec![(s("solo"), task("PolkaDot", "solo", &[], &[], &[]))];
    assert!(composer_with(tasks).get_custom_structs()[0].contains("Serialize, Deserialize, Polkadot],"));
}

#[test]
fn add_config_appends() {
    let mut c = Composer::default();
    c.add_config("config/path/config_file_name_here");
    c.add_config("second.star");
    assert_eq!(c.config_files, vec![s("config/path/config_file_name_here"), s("second.star")]);
}

#[test]
fn add_workflow_accepts_new_name() {
    let mut c = Composer::default();
    assert_eq!(c.add_workflow(s("w"), s("1.0"), Vec::new()), Ok(()));
    assert_eq!(c.workflows.len(), 1);
    assert_eq!(c.workflows[0].name, "w");
    assert_eq!(c.workflows[0].version, "1.0");
}

#[test]
fn add_workflow_rejects_duplicate_name() {
    let mut c = Composer::default();
    c.add_workflow(s("w"), s("1.0"), Vec::new()).unwrap();
    let err = c.add_workflow(s("w"), s("2.0"), Vec::new()).unwrap_err();
    assert_eq!(err, ComposerError::DuplicateWorkflowName);
    assert_eq!(err.message(), "Workflows should not have same name");
    assert_eq!(c.workflows.len(), 1);
    assert_eq!(c.workflows[0].version, "1.0");
}

#[test]
fn add_workflow_rejects_empty_name() {
    let mut c = Composer::default();
    let err = c.add_workflow(s(""), s("1.0"), Vec::new()).unwrap_err();
    assert_eq!(err, ComposerError::EmptyWorkflowName);
    assert_eq!(err.message(), "Workflow name should not be empty");
    assert!(c.workflows.is_empty());
}

#[test]
fn error_message_not_found() {
    assert_eq!(ComposerError::NotFound.message(), "entity not found");
}

#[test]
fn build_plan_verbose() {
    let mut c = Composer::default();
    c.add_config("a");
    c.add_config("b");
    c.add_config("c");
    let plan = c.build(true);
    assert_eq!(plan.progress, 3);
    assert_eq!(plan.commands.len(), 2);
    assert_eq!(plan.commands[0].program, "rustup");
    assert_eq!(plan.commands[0].dir, "boilerplate");
    assert_eq!(plan.commands[0].args, vec![s("target"), s("add"), s("wasm32-wasi")]);
    assert_eq!(plan.commands[0].failure_message, "adding wasm32-wasi rust toolchain command failed to start");
    assert_eq!(plan.commands[1].program, "cargo");
    assert_eq!(plan.commands[1].args, vec![s("build"), s("--release"), s("--target"), s("wasm32-wasi")]);
    assert_eq!(plan.commands[1].failure_message, "building wasm32 command failed to start");
}

#[test]
fn build_plan_quiet() {
    let mut c = Composer::default();
    c.add_config("only");
    let plan = c.build(false);
    assert_eq!(plan.progress, 10);
    assert_eq!(plan.commands.len(), 1);
    assert_eq!(plan.commands[0].program, "cargo");
    assert_eq!(plan.commands[0].args, vec![s("build"), s("--release"), s("--target"), s("wasm32-wasi"), s("--quiet")]);
}

#[test]
fn default_composer_is_empty() {
    let c = Composer::default();
    assert!(c.config_files.is_empty());
    assert!(c.workflows.is_empty());
    assert!(c.custom_types.is_empty());
}

#[test]
fn decimal_string_values() {
    assert_eq!(decimal_string(0), "0");
    assert_eq!(decimal_string(7), "7");
    assert_eq!(decimal_string(10), "10");
    assert_eq!(decimal_string(12345), "12345");
    assert_eq!(decimal_string(usize::MAX), usize::MAX.to_string());
}

#[test]
fn join_strings_values() {
    assert_eq!(join_strings(&Vec::new(), ","), "");
    assert_eq!(join_strings(&vec![s("a")], ","), "a");
    assert_eq!(join_strings(&vec![s("a"), s("b"), s("c")], ", "), "a, b, c");
}

#[test]
fn first_segment_values() {
    assert_eq!(first_segment_of("name:String"), "name");
    assert_eq!(first_segment_of("a:b:c"), "a");
    assert_eq!(first_segment_of("plain"), "plain");
    assert_eq!(first_segment_of(":x"), "");
}

#[test]
fn workflow_struct_fields() {
    let w = Workflow { name: s("n"), version: s("v"), tasks: Vec::new() };
    assert_eq!(w.name, "n");
    assert_eq!(w.version, "v");
}

#[test]
fn get_custom_structs_sorted_dependencies_supply_fields() {
    let tasks = vec![(
        s("merge"),
        task(
            "polkadot",
            "merge",
            &[("a", "u8"), ("b", "u8"), ("c", "u8")],
            &[],
            &[("first", &[("a", "x")]), ("second", &[("b", "y")])],
        ),
    )];
    let res = composer_with(tasks).get_custom_structs();
    assert!(res[0].contains("impl_new!(\n    Merge,\n    MergeInput,\n    [c:u8]\n);\nimpl_setter!(Merge, [a:\"x\",b:\"y\"]);"));
    assert!(res[0].ends_with("\n\nmake_input_struct!(\n\tInput,\n\t[c:u8],\n\t[Debug, Clone, Default, Serialize, Deserialize]);"));
    assert_eq!(res[1], "\tlet merge = Merge::new(input.c, \"merge\".to_string());\n\tlet merge_index = workflow::add_node(Box::new(merge));\n");
}

#[test]
fn wasm_plan_packages_every_workflow() {
    let mut c = Composer::default();
    c.add_config("a.star");
    c.add_config("b.star");
    c.add_workflow(s("payroll"), s("0.1"), sample_tasks()).unwrap();
    c.add_workflow(s("empty"), s("1"), Vec::new()).unwrap();
    c.add_workflow(s("solo"), s("2"), vec![(s("solo"), task("openwhisk", "solo", &[], &[], &[]))]).unwrap();
    let plan = c.wasm_plan();
    assert_eq!(plan.packages.len(), 3);
    assert_eq!(plan.packages[0].workflow_index, 0);
    assert_eq!(plan.packages[0].name, "payroll_0.1");
    assert_eq!(plan.packages[1].workflow_index, 1);
    assert_eq!(plan.packages[1].name, "empty_1");
    assert_eq!(plan.packages[2].workflow_index, 2);
    assert_eq!(plan.packages[2].name, "solo_2");
    assert_eq!(plan.progress, vec![6, 6, 6, 6, 6, 5, 6, 6, 5, 6, 6, 5]);
}

#[test]
fn wasm_plan_no_workflows() {
    let mut c = Composer::default();
    c.add_config("a.star");
    let plan = c.wasm_plan();
    assert!(plan.packages.is_empty());
    assert_eq!(plan.progress, vec![12, 12]);
}

#[test]
fn get_workflow_execute_code_single_task_without_workflow() {
    let c = Composer::default();
    assert_eq!(
        c.get_workflow_execute_code(&flow(&["only"])),
        "\tworkflow.add_edges(&[\n\t]);\n\n\tlet result = workflow\n\t\t.int()?\n"
    );
}

#[test]
fn platform_name_of_lowercased_kinds() {
    assert_eq!(platform_name("openwhisk"), Ok(s("OpenWhisk")));
    assert_eq!(platform_name("polkadot"), Ok(s("Polkadot")));
    assert_eq!(platform_name("OpenWhisk"), Err(ComposerError::NotFound));
    assert_eq!(platform_name("lambda"), Err(ComposerError::NotFound));
}

#[test]
fn replace_first_values() {
    assert_eq!(replace_first("H", "hello"), "Hello");
    assert_eq!(replace_first("SS", "ßa"), "SSa");
    assert_eq!(replace_first("", "x"), "");
}

#[test]
fn fields_outside_keeps_err_outcomes() {
    let args = pairs(&[("a", "u8"), ("b", "u8"), ("c", "u8")]);
    let outcomes = vec![Ok(0), Err(1), Err(0)];
    assert_eq!(fields_outside(&args, &outcomes), pairs(&[("b", "u8"), ("c", "u8")]));
    assert!(fields_outside(&Vec::new(), &Vec::new()).is_empty());
}

#[test]
fn capitalize_ascii_idempotent() {
    let c = Composer::default();
    for text in ["", "a", "employee_ids", "Zebra", "9lives", "x:y z"] {
        let once = c.capitalize(text);
        assert_eq!(once.len(), text.len());
        assert_eq!(c.capitalize(&once), once);
        if let Some(first) = text.chars().next() {
            assert_eq!(once.chars().next().unwrap(), first.to_ascii_uppercase());
            assert_eq!(&once[1..], &text[1..]);
        }
    }
}

#[test]
fn macros_shape() {
    let m = Composer::default().get_macros();
    assert_eq!(m.len(), 2211);
    assert_eq!(&m[99..131], "macro_rules! make_input_struct {");
    assert_eq!(&m[402..433], "macro_rules! make_main_struct {");
    assert_eq!(&m[921..944], "macro_rules! impl_new {");
    assert_eq!(&m[1829..1855], "macro_rules! impl_setter {");
    assert!(m.ends_with('}'));
}
