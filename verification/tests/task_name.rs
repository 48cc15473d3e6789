use mongo_task_generator::utils::task_name::{name_generated_task, remove_gen_suffix};

#[test]
fn test_name_generated_task_should_not_include_suffix() {
    let cases = [
        ("task", Some(0), 10, false, "task_0"),
        ("task", Some(42), 1001, false, "task_0042"),
        ("task", None, 1001, false, "task_misc"),
        ("task", None, 0, false, "task_misc"),
        ("task", Some(0), 10, true, "task_0-enterprise"),
        ("task", Some(42), 1001, true, "task_0042-enterprise"),
        ("task", None, 1001, true, "task_misc-enterprise"),
        ("task", None, 0, true, "task_misc-enterprise"),
    ];
    for (name, index, total, is_enterprise, expected) in cases {
        let task_name = name_generated_task(name, index, total, is_enterprise);

        assert_eq!(task_name, expected);
    }
}

#[test]
fn test_remove_gen_suffix() {
    let cases = [
        ("task_name", "task_name"),
        ("task_name_gen", "task_name"),
        ("task_name_", "task_name_"),
    ];
    for (original_task, expected_task) in cases {
        assert_eq!(remove_gen_suffix(original_task), expected_task);
    }
}

#[test]
fn the_sub_tasks_of_a_task_are_named_apart_and_equally_long() {
    for total in [1, 9, 10, 11, 99, 100, 101] {
        let names: Vec<String> =
            (0..total).map(|i| name_generated_task("task", Some(i), total, false)).collect();
        for (i, name) in names.iter().enumerate() {
            assert_eq!(name.len(), names[0].len());
            for other in &names[i + 1..] {
                assert_ne!(name, other);
            }
        }
    }
}

#[test]
fn the_last_of_a_hundred_and_one_sub_tasks_has_three_digits() {
    assert_eq!(name_generated_task("task", Some(100), 101, false), "task_100");
    assert_eq!(name_generated_task("task", Some(7), 101, false), "task_007");
    assert_eq!(name_generated_task("task", Some(7), 100, false), "task_07");
    assert_eq!(name_generated_task("task", Some(0), 1, false), "task_0");
}

#[test]
fn enterprise_names_differ() {
    assert_ne!(
        name_generated_task("task", Some(1), 5, true),
        name_generated_task("task", Some(1), 5, false)
    );
}

#[test]
fn only_one_gen_suffix_comes_off() {
    assert_eq!(remove_gen_suffix("task_gen_gen"), "task_gen");
    assert_eq!(remove_gen_suffix("_gen"), "");
    assert_eq!(remove_gen_suffix("gen"), "gen");
}

#[test]
fn sub_tasks_are_named_in_the_order_of_their_indexes() {
    for total in [2, 10, 11, 100, 101, 1000] {
        for is_enterprise in [false, true] {
            let names: Vec<String> = (0..total)
                .map(|i| name_generated_task("task", Some(i), total, is_enterprise))
                .collect();
            let mut sorted = names.clone();
            sorted.sort();
            assert_eq!(sorted, names);
            let suffix = if is_enterprise { "-enterprise" } else { "" };
            assert_eq!(names[total - 1], format!("task_{}{}", total - 1, suffix));
        }
    }
}
