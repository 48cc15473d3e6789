use mongo_task_generator::evergreen::evg_config::EvgProjectConfig;
use mongo_task_generator::evergreen::model::{
    fn_call, text_param, BuildVariant, DisplayTask, EvgCommand, EvgModule, EvgTask, FunctionCall,
    KeyValueParam, ParamValue, S3CopyFile, S3Location, TaskDependency, TaskRef,
};
use mongo_task_generator::evergreen::project_yaml::ProjectError;
use mongo_task_generator::utils::string_map::StringMap;

const PROJECT: &str = "
modules:
- name: enterprise
  repo: git@github.com:10gen/mongo-enterprise-modules.git
  branch: master
  prefix: src/mongo/db/modules
functions:
  run tests:
    - command: shell.exec
      params:
        script: echo hi
tasks:
- name: my_task_gen
  tags: [a, b]
  exec_timeout_secs: 60
  depends_on:
  - name: archive
    variant: build
  - name: other
  commands:
  - func: generate resmoke tasks
    timeout_secs: 10
    vars:
      text: hello
      number: 5
      flag: true
      fraction: 1.5
      list: [x, y]
      map: {k: v}
      pairs:
      - key: one
        value: two
      files:
      - source: {bucket: from, path: here}
        destination: {bucket: to, path: there}
        optional: true
  - func: do setup
  - command: shell.exec
    params:
      script: echo hi
- name: empty
  commands: []
  patchable: false
  stepback: true
buildvariants:
- name: my-variant
  display_name: '! My Variant'
  run_on: [small]
  batchtime: 30
  stepback: false
  activate: true
  modules: [enterprise]
  expansions:
    large_distro_name: big
    other: value
  depends_on:
  - name: first
  display_tasks:
  - name: group
    execution_tasks: [my_task_gen]
  tasks:
  - name: my_task_gen
    distros: [large]
    activate: false
    depends_on:
    - name: second
      variant: third
";

fn texts(texts: &[&str]) -> Vec<String> {
    texts.iter().map(|t| t.to_string()).collect()
}

fn dependency(name: &str, variant: Option<&str>) -> TaskDependency {
    TaskDependency {
        name: name.to_string(),
        variant: variant.map(|v| v.to_string()),
    }
}

fn location(bucket: &str, path: &str) -> S3Location {
    S3Location {
        bucket: bucket.to_string(),
        path: path.to_string(),
    }
}

#[test]
fn build_variants_and_modules_are_read() {
    let project = EvgProjectConfig::from_yaml(PROJECT).unwrap().evg_project;
    let expansions = StringMap::collect(vec![
        ("large_distro_name".to_string(), "big".to_string()),
        ("other".to_string(), "value".to_string()),
    ]);
    assert_eq!(
        project.buildvariants,
        vec![BuildVariant {
            name: "my-variant".to_string(),
            tasks: vec![TaskRef {
                name: "my_task_gen".to_string(),
                depends_on: Some(vec![dependency("second", Some("third"))]),
                distros: Some(texts(&["large"])),
                activate: Some(false),
            }],
            display_name: Some("! My Variant".to_string()),
            run_on: Some(texts(&["small"])),
            display_tasks: Some(vec![DisplayTask {
                name: "group".to_string(),
                execution_tasks: texts(&["my_task_gen"]),
            }]),
            batchtime: Some(30),
            expansions: Some(expansions),
            stepback: Some(false),
            modules: Some(texts(&["enterprise"])),
            depends_on: Some(vec![dependency("first", None)]),
            activate: Some(true),
        }]
    );
    assert_eq!(
        project.modules,
        Some(vec![EvgModule {
            name: "enterprise".to_string(),
            repo: "git@github.com:10gen/mongo-enterprise-modules.git".to_string(),
            branch: "master".to_string(),
            prefix: "src/mongo/db/modules".to_string(),
        }])
    );
}

#[test]
fn tasks_are_read() {
    let config = EvgProjectConfig::from_yaml(PROJECT).unwrap();
    let tasks = config.get_task_def_map();
    let task = tasks.get("my_task_gen").unwrap();
    assert_eq!(task.tags, Some(texts(&["a", "b"])));
    assert_eq!(task.exec_timeout_secs, Some(60));
    assert_eq!(
        task.depends_on,
        Some(vec![dependency("archive", Some("build")), dependency("other", None)])
    );
    let commands = task.commands.as_ref().unwrap();
    assert_eq!(commands[1..], [fn_call("do setup"), EvgCommand::BuiltIn]);
    let vars = match &commands[0] {
        EvgCommand::Function(FunctionCall { func, vars, timeout_secs }) => {
            assert_eq!(func, "generate resmoke tasks");
            assert_eq!(*timeout_secs, Some(10));
            vars.as_ref().unwrap()
        }
        EvgCommand::BuiltIn => panic!("a function was expected"),
    };
    assert_eq!(vars.len(), 8);
    let expected = [
        ("text", text_param("hello")),
        ("number", ParamValue::Number(5)),
        ("flag", ParamValue::Bool(true)),
        ("fraction", ParamValue::Float(1.5_f64.to_bits())),
        ("list", ParamValue::List(texts(&["x", "y"]))),
        (
            "map",
            ParamValue::Mapping(StringMap::collect(vec![("k".to_string(), "v".to_string())])),
        ),
        (
            "pairs",
            ParamValue::KeyValueList(vec![KeyValueParam {
                key: "one".to_string(),
                value: "two".to_string(),
            }]),
        ),
        (
            "files",
            ParamValue::S3CopyList(vec![S3CopyFile {
                source: location("from", "here"),
                destination: location("to", "there"),
                display_name: None,
                build_variants: None,
                optional: Some(true),
            }]),
        ),
    ];
    for (name, value) in expected {
        assert_eq!(vars.get(name), Some(&value));
    }
    assert_eq!(
        tasks.get("empty"),
        Some(&EvgTask {
            name: "empty".to_string(),
            patchable: Some(false),
            stepback: Some(true),
            ..Default::default()
        })
    );
}

#[test]
fn merge_keys_are_resolved() {
    let yaml = "
base: &base
  stepback: true
  patchable: false
functions: {}
buildvariants: []
tasks:
- <<: *base
  name: task
  commands: []
";
    let project = EvgProjectConfig::from_yaml(yaml).unwrap().evg_project;
    assert_eq!(project.tasks[0].stepback, Some(true));
    assert_eq!(project.tasks[0].patchable, Some(false));
    assert_eq!(project.modules, None);
}

#[test]
fn texts_that_define_no_project_are_told() {
    for yaml in ["", "tasks: []\n", "a: 1\n---\nb: 2\n", "just a text\n"] {
        assert!(matches!(
            EvgProjectConfig::from_yaml(yaml),
            Err(ProjectError::NotAProject(_))
        ));
    }
    assert!(matches!(
        EvgProjectConfig::from_yaml("tasks: [a"),
        Err(ProjectError::NotYaml(_))
    ));
}

#[test]
fn deep_projects_are_refused() {
    let nested = |levels: usize| -> String {
        (0..levels).map(|i| " ".repeat(i) + "a:\n").collect()
    };
    assert!(matches!(
        EvgProjectConfig::from_yaml(&nested(149)),
        Err(ProjectError::NotAProject(_))
    ));
    assert!(matches!(
        EvgProjectConfig::from_yaml(&nested(150)),
        Err(ProjectError::TooLarge)
    ));
}

#[test]
fn large_projects_with_scripts_are_read() {
    let script = "          if [[ -n \"${x}\" && ! -f y ]]; then { echo *.js & } 2>&1; fi # ".to_string()
        + &"long ".repeat(200)
        + "\n";
    let mut yaml = "functions: {}\nbuildvariants: []\ntasks:\n".to_string();
    for i in 0..300 {
        yaml.push_str(&format!(
            "- name: task_{}\n  commands:\n  - command: shell.exec\n    params:\n      script: |\n{}{}",
            i, script, script
        ));
    }
    let project = EvgProjectConfig::from_yaml(&yaml).unwrap().evg_project;
    assert_eq!(project.tasks.len(), 300);
    assert_eq!(project.tasks[299].name, "task_299");
}
