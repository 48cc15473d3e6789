//! The build variants that burn_in_tags tasks ask for.

use vstd::prelude::*;

use crate::evergreen::evg_config_utils::{
    burn_in_tags_resolvable, expansion, is_burn_in_tag_variant, lists_burn_in_tag_variants,
    EvgConfigUtilsImpl,
};
use crate::evergreen::model::{BuildVariant, BuildVariantView};
use crate::evergreen_names::{
    BURN_IN_TAGS, BURN_IN_TAG_COMPILE_TASK_DEPENDENCY, BURN_IN_TAG_INCLUDE_BUILD_VARIANTS,
};
use crate::utils::string_map::{distinct_keys, key_at, lemma_entry, StringMap};
use crate::utils::text::str_eq;

verus! {

/// What is known of a build variant that some burn_in_tags task asks for.
#[derive(Debug, PartialEq)]
pub struct BurnInTagBuildVariantInfo {
    /// Compile task that the burn_in_tags build variant should depend on.
    pub compile_task_dependency: String,
}

/// What a [`BurnInTagBuildVariantInfo`] holds.
pub struct BurnInTagBuildVariantInfoView {
    pub compile_task_dependency: Seq<char>,
}

impl DeepView for BurnInTagBuildVariantInfo {
    type V = BurnInTagBuildVariantInfoView;

    open spec fn deep_view(&self) -> BurnInTagBuildVariantInfoView {
        BurnInTagBuildVariantInfoView { compile_task_dependency: self.compile_task_dependency@ }
    }
}

/// What keeps burn_in_tags from being generated.
#[derive(Debug, PartialEq)]
pub enum BurnInTagProblem {
    /// The build variants that the build variant asks for cannot be told.
    Unresolved { build_variant: String },
    /// The build variant asks for no build variants.
    NoVariants { build_variant: String },
    /// The build variant names no compile task.
    MissingCompileTask { build_variant: String },
    /// The build variant asks for one that does not exist.
    UnknownVariant { build_variant: String, variant: String },
    /// The build variant names another compile task than is already set for one it asks for.
    OtherCompileTask { build_variant: String, variant: String },
}

/// What a [`BurnInTagProblem`] holds.
pub enum BurnInTagProblemView {
    Unresolved { build_variant: Seq<char> },
    NoVariants { build_variant: Seq<char> },
    MissingCompileTask { build_variant: Seq<char> },
    UnknownVariant { build_variant: Seq<char>, variant: Seq<char> },
    OtherCompileTask { build_variant: Seq<char>, variant: Seq<char> },
}

impl DeepView for BurnInTagProblem {
    type V = BurnInTagProblemView;

    open spec fn deep_view(&self) -> BurnInTagProblemView {
        match self {
            BurnInTagProblem::Unresolved { build_variant } => BurnInTagProblemView::Unresolved {
                build_variant: build_variant@,
            },
            BurnInTagProblem::NoVariants { build_variant } => BurnInTagProblemView::NoVariants {
                build_variant: build_variant@,
            },
            BurnInTagProblem::MissingCompileTask { build_variant } => {
                BurnInTagProblemView::MissingCompileTask { build_variant: build_variant@ }
            },
            BurnInTagProblem::UnknownVariant { build_variant, variant } => {
                BurnInTagProblemView::UnknownVariant {
                    build_variant: build_variant@,
                    variant: variant@,
                }
            },
            BurnInTagProblem::OtherCompileTask { build_variant, variant } => {
                BurnInTagProblemView::OtherCompileTask {
                    build_variant: build_variant@,
                    variant: variant@,
                }
            },
        }
    }
}

/// The text in which a problem is reported.
pub open spec fn problem_message(problem: BurnInTagProblemView) -> Seq<char> {
    match problem {
        BurnInTagProblemView::Unresolved { build_variant } => "`"@ + build_variant
            + "` build variant has burn in tag expansions that cannot be resolved."@,
        BurnInTagProblemView::NoVariants { build_variant } => "`"@ + build_variant
            + "` build variant is either missing or has an empty list for the `"@
            + BURN_IN_TAG_INCLUDE_BUILD_VARIANTS@
            + "` expansion. Set the expansion in your project's config to run "@ + BURN_IN_TAGS@
            + "."@,
        BurnInTagProblemView::MissingCompileTask { build_variant } => "`"@ + build_variant
            + "` build variant is missing the `"@ + BURN_IN_TAG_COMPILE_TASK_DEPENDENCY@
            + "` expansion to run `"@ + BURN_IN_TAGS@
            + "`. Set the expansion in your project's config to continue."@,
        BurnInTagProblemView::UnknownVariant { build_variant, variant } => "`"@ + build_variant
            + "` is trying to create a build variant that does not exist: "@ + variant
            + ". Check the "@ + BURN_IN_TAG_INCLUDE_BUILD_VARIANTS@
            + " expansion in this variant."@,
        BurnInTagProblemView::OtherCompileTask { build_variant, variant } => "`"@ + build_variant
            + "` is trying to set a different compile task dependency than already exists for `"@
            + variant + "`. Check the `"@ + BURN_IN_TAG_COMPILE_TASK_DEPENDENCY@
            + "` expansions in your config."@,
    }
}

impl BurnInTagProblem {
    /// The text in which the problem is reported.
    pub fn message(&self) -> (text: String)
        ensures
            text@ == problem_message(self.deep_view()),
    {
        let mut text: String = "`".to_owned();
        match self {
            BurnInTagProblem::Unresolved { build_variant } => {
                text.append(build_variant.as_str());
                text.append("` build variant has burn in tag expansions that cannot be resolved.");
            },
            BurnInTagProblem::NoVariants { build_variant } => {
                text.append(build_variant.as_str());
                text.append("` build variant is either missing or has an empty list for the `");
                text.append(BURN_IN_TAG_INCLUDE_BUILD_VARIANTS);
                text.append("` expansion. Set the expansion in your project's config to run ");
                text.append(BURN_IN_TAGS);
                text.append(".");
            },
            BurnInTagProblem::MissingCompileTask { build_variant } => {
                text.append(build_variant.as_str());
                text.append("` build variant is missing the `");
                text.append(BURN_IN_TAG_COMPILE_TASK_DEPENDENCY);
                text.append("` expansion to run `");
                text.append(BURN_IN_TAGS);
                text.append("`. Set the expansion in your project's config to continue.");
            },
            BurnInTagProblem::UnknownVariant { build_variant, variant } => {
                text.append(build_variant.as_str());
                text.append("` is trying to create a build variant that does not exist: ");
                text.append(variant.as_str());
                text.append(". Check the ");
                text.append(BURN_IN_TAG_INCLUDE_BUILD_VARIANTS);
                text.append(" expansion in this variant.");
            },
            BurnInTagProblem::OtherCompileTask { build_variant, variant } => {
                text.append(build_variant.as_str());
                text.append(
                    "` is trying to set a different compile task dependency than already exists for `",
                );
                text.append(variant.as_str());
                text.append("`. Check the `");
                text.append(BURN_IN_TAG_COMPILE_TASK_DEPENDENCY);
                text.append("` expansions in your config.");
            },
        }
        text
    }
}

/// The build variant runs the named task.
pub open spec fn has_task(variant: BuildVariantView, name: Seq<char>) -> bool {
    exists|i: int| 0 <= i < variant.tasks.len() && (#[trigger] variant.tasks[i]).name == name
}

/// Does the build variant run the named task?
///
/// # Arguments
///
/// * `build_variant` - Build variant to query.
/// * `name` - Name of task to look for.
pub fn runs_task(build_variant: &BuildVariant, name: &str) -> (found: bool)
    ensures
        found == has_task(build_variant.deep_view(), name@),
{
    let mut i: usize = 0;
    while i < build_variant.tasks.len()
        invariant
            i <= build_variant.tasks@.len(),
            forall|j: int|
                0 <= j < i ==> (#[trigger] build_variant.deep_view().tasks[j]).name != name@,
        decreases build_variant.tasks@.len() - i,
    {
        if str_eq(build_variant.tasks[i].name.as_str(), name) {
            assert(build_variant.deep_view().tasks[i as int].name == name@);
            return true;
        }
        i += 1;
    }
    false
}

/// The compile task that a build variant names for the build variants it asks for.
pub open spec fn compile_task(variant: BuildVariantView) -> Option<Seq<char>> {
    expansion(variant, BURN_IN_TAG_COMPILE_TASK_DEPENDENCY@)
}

/// The build variants that a build variant asks for can be told, and they all exist.
pub open spec fn tags_known(
    variant: BuildVariantView,
    variant_map: Map<Seq<char>, BuildVariantView>,
) -> bool {
    &&& burn_in_tags_resolvable(variant, variant_map)
    &&& forall|name: Seq<char>| #[trigger]
        is_burn_in_tag_variant(variant, variant_map, name) ==> variant_map.contains_key(name)
}

/// The build variants that a build variant asks for are known, there are some, and it names the
/// compile task for them.
pub open spec fn tags_ready(
    variant: BuildVariantView,
    variant_map: Map<Seq<char>, BuildVariantView>,
) -> bool {
    &&& tags_known(variant, variant_map)
    &&& exists|name: Seq<char>| #[trigger] is_burn_in_tag_variant(variant, variant_map, name)
    &&& compile_task(variant) is Some
}

/// The burn_in_tags of a build variant fit what is already known: those of its build variants that
/// have been asked for before have its compile task.
pub open spec fn can_add_tags(
    infos: Map<Seq<char>, BurnInTagBuildVariantInfoView>,
    variant: BuildVariantView,
    variant_map: Map<Seq<char>, BuildVariantView>,
) -> bool {
    &&& tags_ready(variant, variant_map)
    &&& forall|name: Seq<char>| #[trigger]
        is_burn_in_tag_variant(variant, variant_map, name) && infos.contains_key(name)
            ==> Some(infos[name].compile_task_dependency) == compile_task(variant)
}

/// The problem with the burn_in_tags of a build variant.
pub open spec fn is_problem(
    problem: BurnInTagProblemView,
    infos: Map<Seq<char>, BurnInTagBuildVariantInfoView>,
    variant: BuildVariantView,
    variant_map: Map<Seq<char>, BuildVariantView>,
) -> bool {
    match problem {
        BurnInTagProblemView::Unresolved { build_variant } => {
            &&& build_variant == variant.name
            &&& !burn_in_tags_resolvable(variant, variant_map)
        },
        BurnInTagProblemView::NoVariants { build_variant } => {
            &&& build_variant == variant.name
            &&& burn_in_tags_resolvable(variant, variant_map)
            &&& forall|name: Seq<char>| !#[trigger]
                is_burn_in_tag_variant(variant, variant_map, name)
        },
        BurnInTagProblemView::MissingCompileTask { build_variant } => {
            &&& build_variant == variant.name
            &&& burn_in_tags_resolvable(variant, variant_map)
            &&& exists|name: Seq<char>| #[trigger]
                is_burn_in_tag_variant(variant, variant_map, name)
            &&& compile_task(variant) is None
        },
        BurnInTagProblemView::UnknownVariant { build_variant, variant: name } => {
            &&& build_variant == variant.name
            &&& burn_in_tags_resolvable(variant, variant_map)
            &&& compile_task(variant) is Some
            &&& is_burn_in_tag_variant(variant, variant_map, name)
            &&& !variant_map.contains_key(name)
        },
        BurnInTagProblemView::OtherCompileTask { build_variant, variant: name } => {
            &&& build_variant == variant.name
            &&& burn_in_tags_resolvable(variant, variant_map)
            &&& compile_task(variant) is Some
            &&& is_burn_in_tag_variant(variant, variant_map, name)
            &&& variant_map.contains_key(name)
            &&& infos.contains_key(name)
            &&& Some(infos[name].compile_task_dependency) != compile_task(variant)
        },
    }
}

/// What is known with the burn_in_tags of one more build variant.
pub open spec fn with_tags(
    infos: Map<Seq<char>, BurnInTagBuildVariantInfoView>,
    variant: BuildVariantView,
    variant_map: Map<Seq<char>, BuildVariantView>,
) -> Map<Seq<char>, BurnInTagBuildVariantInfoView> {
    Map::new(
        |name: Seq<char>|
            infos.contains_key(name) || is_burn_in_tag_variant(variant, variant_map, name),
        |name: Seq<char>|
            if infos.contains_key(name) {
                infos[name]
            } else {
                BurnInTagBuildVariantInfoView {
                    compile_task_dependency: compile_task(variant).unwrap(),
                }
            },
    )
}

/// Are the build variants that a build variant asks for known?
///
/// # Arguments
///
/// * `evg_config_utils` - Utilities to work with evergreen project configuration.
/// * `build_variant` - The build variant that asks.
/// * `build_variant_map` - A map of build variant names to their definitions.
pub fn knows_tags(
    evg_config_utils: &EvgConfigUtilsImpl,
    build_variant: &BuildVariant,
    build_variant_map: &StringMap<&BuildVariant>,
) -> (known: bool)
    ensures
        known == tags_known(build_variant.deep_view(), build_variant_map.deep_view()),
{
    let ghost variant = build_variant.deep_view();
    let ghost variant_map = build_variant_map.deep_view();
    if !evg_config_utils.can_resolve_burn_in_tags(build_variant, build_variant_map) {
        return false;
    }
    let names: Vec<String> = evg_config_utils.resolve_burn_in_tag_build_variants(
        build_variant,
        build_variant_map,
    );
    let ghost all = names.deep_view();
    let mut i: usize = 0;
    while i < names.len()
        invariant
            i <= names@.len(),
            all == names.deep_view(),
            variant_map == build_variant_map.deep_view(),
            variant == build_variant.deep_view(),
            lists_burn_in_tag_variants(variant, variant_map, all),
            forall|j: int| 0 <= j < i ==> variant_map.contains_key(#[trigger] all[j]),
        decreases names@.len() - i,
    {
        if !build_variant_map.contains_key(names[i].as_str()) {
            assert(all.contains(all[i as int]));
            assert(is_burn_in_tag_variant(variant, variant_map, all[i as int]));
            return false;
        }
        i += 1;
    }
    proof {
        assert forall|name: Seq<char>| #[trigger]
            is_burn_in_tag_variant(variant, variant_map, name) implies variant_map.contains_key(
            name,
        ) by {
            assert(all.contains(name));
            assert(all[all.index_of(name)] == name);
        }
    }
    true
}

/// Find what keeps the burn_in_tags of a build variant from being added to what is known.
///
/// # Arguments
///
/// * `evg_config_utils` - Utilities to work with evergreen project configuration.
/// * `burn_in_tag_build_variant_info` - A map of burn_in build variants to config information about
///   them.
/// * `build_variant` - The original build variant to generate burn_in information from.
/// * `build_variant_map` - A map of build variant names to their definitions.
///
/// # Returns
///
/// The problem, if there is one. Where several of the build variants that it asks for have one, it
/// is that of any of them.
pub fn find_burn_in_tag_problem(
    evg_config_utils: &EvgConfigUtilsImpl,
    burn_in_tag_build_variant_info: &StringMap<BurnInTagBuildVariantInfo>,
    build_variant: &BuildVariant,
    build_variant_map: &StringMap<&BuildVariant>,
) -> (problem: Option<BurnInTagProblem>)
    ensures
        problem is None <==> can_add_tags(
            burn_in_tag_build_variant_info.deep_view(),
            build_variant.deep_view(),
            build_variant_map.deep_view(),
        ),
        problem matches Some(problem) ==> is_problem(
            problem.deep_view(),
            burn_in_tag_build_variant_info.deep_view(),
            build_variant.deep_view(),
            build_variant_map.deep_view(),
        ),
{
    let ghost variant = build_variant.deep_view();
    let ghost variant_map = build_variant_map.deep_view();
    let ghost infos = burn_in_tag_build_variant_info.deep_view();
    if !evg_config_utils.can_resolve_burn_in_tags(build_variant, build_variant_map) {
        return Some(BurnInTagProblem::Unresolved { build_variant: build_variant.name.clone() });
    }
    let names: Vec<String> = evg_config_utils.resolve_burn_in_tag_build_variants(
        build_variant,
        build_variant_map,
    );
    let ghost all = names.deep_view();
    if names.len() == 0 {
        assert forall|name: Seq<char>| !#[trigger] is_burn_in_tag_variant(
            variant,
            variant_map,
            name,
        ) by {
            assert(!all.contains(name));
        }
        return Some(BurnInTagProblem::NoVariants { build_variant: build_variant.name.clone() });
    }
    assert(all.contains(all[0]));
    assert(is_burn_in_tag_variant(variant, variant_map, all[0]));
    let compile_task_dependency: String = match evg_config_utils.lookup_build_variant_expansion(
        BURN_IN_TAG_COMPILE_TASK_DEPENDENCY,
        build_variant,
    ) {
        Some(name) => name,
        None => {
            return Some(
                BurnInTagProblem::MissingCompileTask { build_variant: build_variant.name.clone() },
            );
        },
    };
    let mut i: usize = 0;
    while i < names.len()
        invariant
            i <= names@.len(),
            all == names.deep_view(),
            infos == burn_in_tag_build_variant_info.deep_view(),
            variant_map == build_variant_map.deep_view(),
            variant == build_variant.deep_view(),
            burn_in_tags_resolvable(variant, variant_map),
            lists_burn_in_tag_variants(variant, variant_map, all),
            compile_task(variant) == Some(compile_task_dependency@),
            forall|j: int|
                0 <= j < i ==> variant_map.contains_key(#[trigger] all[j]) && (infos.contains_key(
                    all[j],
                ) ==> infos[all[j]].compile_task_dependency == compile_task_dependency@),
        decreases names@.len() - i,
    {
        assert(all.contains(all[i as int]));
        assert(is_burn_in_tag_variant(variant, variant_map, all[i as int]));
        if !build_variant_map.contains_key(names[i].as_str()) {
            return Some(
                BurnInTagProblem::UnknownVariant {
                    build_variant: build_variant.name.clone(),
                    variant: names[i].clone(),
                },
            );
        }
        if let Some(info) = burn_in_tag_build_variant_info.get(names[i].as_str()) {
            if !str_eq(info.compile_task_dependency.as_str(), compile_task_dependency.as_str()) {
                return Some(
                    BurnInTagProblem::OtherCompileTask {
                        build_variant: build_variant.name.clone(),
                        variant: names[i].clone(),
                    },
                );
            }
        }
        i += 1;
    }
    proof {
        assert forall|name: Seq<char>| #[trigger]
            is_burn_in_tag_variant(variant, variant_map, name) implies variant_map.contains_key(
            name,
        ) && (infos.contains_key(name) ==> infos[name].compile_task_dependency
            == compile_task_dependency@) by {
            assert(all.contains(name));
            assert(all[all.index_of(name)] == name);
        }
    }
    None
}

/// Generate the burn_in build variant information for a build variant.
///
/// # Arguments
///
/// * `evg_config_utils` - Utilities to work with evergreen project configuration.
/// * `burn_in_tag_build_variant_info` - A map of burn_in build variants to config information about
///   them.
/// * `build_variant` - The original build variant to generate burn_in information from.
/// * `build_variant_map` - A map of build variant names to their definitions.
pub fn generate_burn_in_build_variant_info(
    evg_config_utils: &EvgConfigUtilsImpl,
    burn_in_tag_build_variant_info: &mut StringMap<BurnInTagBuildVariantInfo>,
    build_variant: &BuildVariant,
    build_variant_map: &StringMap<&BuildVariant>,
)
    requires
        can_add_tags(
            old(burn_in_tag_build_variant_info).deep_view(),
            build_variant.deep_view(),
            build_variant_map.deep_view(),
        ),
    ensures
        final(burn_in_tag_build_variant_info).deep_view() == with_tags(
            old(burn_in_tag_build_variant_info).deep_view(),
            build_variant.deep_view(),
            build_variant_map.deep_view(),
        ),
{
    let ghost variant = build_variant.deep_view();
    let ghost variant_map = build_variant_map.deep_view();
    let ghost infos = burn_in_tag_build_variant_info.deep_view();
    let names: Vec<String> = evg_config_utils.resolve_burn_in_tag_build_variants(
        build_variant,
        build_variant_map,
    );
    let ghost all = names.deep_view();
    let compile_task_dependency: String = evg_config_utils.lookup_build_variant_expansion(
        BURN_IN_TAG_COMPILE_TASK_DEPENDENCY,
        build_variant,
    ).unwrap();
    let ghost info = BurnInTagBuildVariantInfoView {
        compile_task_dependency: compile_task_dependency@,
    };
    let mut i: usize = 0;
    while i < names.len()
        invariant
            i <= names@.len(),
            all == names.deep_view(),
            info.compile_task_dependency == compile_task_dependency@,
            forall|name: Seq<char>| #[trigger]
                burn_in_tag_build_variant_info.deep_view().contains_key(name)
                    <==> infos.contains_key(name) || all.take(i as int).contains(name),
            forall|name: Seq<char>|
                burn_in_tag_build_variant_info.deep_view().contains_key(name) ==> (#[trigger]
                burn_in_tag_build_variant_info.deep_view()[name]) == (if infos.contains_key(name) {
                    infos[name]
                } else {
                    info
                }),
        decreases names@.len() - i,
    {
        let ghost before = burn_in_tag_build_variant_info.deep_view();
        let ghost name = all[i as int];
        if !burn_in_tag_build_variant_info.contains_key(names[i].as_str()) {
            burn_in_tag_build_variant_info.insert(
                names[i].clone(),
                BurnInTagBuildVariantInfo {
                    compile_task_dependency: compile_task_dependency.clone(),
                },
            );
            assert(burn_in_tag_build_variant_info.deep_view() =~= before.insert(name, info));
        }
        proof {
            let now = all.take(i + 1);
            let earlier = all.take(i as int);
            assert forall|n: Seq<char>| #[trigger] now.contains(n) <==> earlier.contains(n) || n
                == name by {
                if earlier.contains(n) {
                    assert(now[earlier.index_of(n)] == n);
                }
                if now.contains(n) {
                    let j = now.index_of(n);
                    if j < i {
                        assert(earlier[j] == n);
                    }
                }
                assert(now[i as int] == name);
            }
            let after = burn_in_tag_build_variant_info.deep_view();
            assert forall|n: Seq<char>| after.contains_key(n) implies (#[trigger] after[n]) == (
            if infos.contains_key(n) {
                infos[n]
            } else {
                info
            }) by {
                if n != name {
                    assert(before.contains_key(n));
                    assert(before[n] == after[n]);
                } else if before.contains_key(n) {
                    assert(before[n] == after[n]);
                }
            }
        }
        i += 1;
    }
    proof {
        assert(all.take(i as int) =~= all);
        assert(burn_in_tag_build_variant_info.deep_view() =~= with_tags(
            infos,
            variant,
            variant_map,
        ));
    }
}

/// A build variant asks another one for burn_in_tags.
pub open spec fn asks_for(
    variant_map: Map<Seq<char>, BuildVariantView>,
    asking: Seq<char>,
    name: Seq<char>,
) -> bool {
    &&& variant_map.contains_key(asking)
    &&& has_task(variant_map[asking], BURN_IN_TAGS@)
    &&& is_burn_in_tag_variant(variant_map[asking], variant_map, name)
}

/// Some of the build variants asks another one for burn_in_tags.
pub open spec fn some_asks_for(
    variant_map: Map<Seq<char>, BuildVariantView>,
    asking: Set<Seq<char>>,
    name: Seq<char>,
) -> bool {
    exists|a: Seq<char>| asking.contains(a) && #[trigger] asks_for(variant_map, a, name)
}

/// The build variants name the same compile task for those that they both ask for.
pub open spec fn compile_tasks_agree(
    variant_map: Map<Seq<char>, BuildVariantView>,
    asking: Set<Seq<char>>,
) -> bool {
    forall|a: Seq<char>, b: Seq<char>, name: Seq<char>|
        asking.contains(a) && asking.contains(b) && #[trigger] asks_for(variant_map, a, name)
            && #[trigger] asks_for(variant_map, b, name) ==> compile_task(variant_map[a])
            == compile_task(variant_map[b])
}

/// The burn_in_tags of all build variants can be generated.
pub open spec fn all_tags_ready(variant_map: Map<Seq<char>, BuildVariantView>) -> bool {
    &&& forall|name: Seq<char>| #[trigger]
        variant_map.contains_key(name) && has_task(variant_map[name], BURN_IN_TAGS@) ==> tags_ready(
            variant_map[name],
            variant_map,
        )
    &&& compile_tasks_agree(variant_map, variant_map.dom())
}

/// What is known of the build variants that some of the given ones ask for.
pub open spec fn infos_of(
    variant_map: Map<Seq<char>, BuildVariantView>,
    asking: Set<Seq<char>>,
) -> Map<Seq<char>, BurnInTagBuildVariantInfoView> {
    Map::new(
        |name: Seq<char>| some_asks_for(variant_map, asking, name),
        |name: Seq<char>|
            {
                let a = choose|a: Seq<char>|
                    asking.contains(a) && #[trigger] asks_for(variant_map, a, name);
                BurnInTagBuildVariantInfoView {
                    compile_task_dependency: compile_task(variant_map[a]).unwrap(),
                }
            },
    )
}

/// With one more build variant that runs burn_in_tags, what is known grows by what it asks for.
pub(crate) proof fn lemma_infos_grow(
    variant_map: Map<Seq<char>, BuildVariantView>,
    asking: Set<Seq<char>>,
    more: Seq<char>,
)
    requires
        variant_map.contains_key(more),
        has_task(variant_map[more], BURN_IN_TAGS@),
        compile_tasks_agree(variant_map, asking),
        can_add_tags(infos_of(variant_map, asking), variant_map[more], variant_map),
        forall|a: Seq<char>, name: Seq<char>|
            asking.contains(a) && #[trigger] asks_for(variant_map, a, name) ==> compile_task(
                variant_map[a],
            ) is Some,
    ensures
        compile_tasks_agree(variant_map, asking.insert(more)),
        with_tags(infos_of(variant_map, asking), variant_map[more], variant_map) == infos_of(
            variant_map,
            asking.insert(more),
        ),
{
    let infos = infos_of(variant_map, asking);
    let variant = variant_map[more];
    let grown = asking.insert(more);
    assert forall|a: Seq<char>, name: Seq<char>|
        asking.contains(a) && #[trigger] asks_for(variant_map, a, name) && #[trigger] asks_for(
            variant_map,
            more,
            name,
        ) implies compile_task(variant_map[a]) == compile_task(variant) by {
        assert(some_asks_for(variant_map, asking, name));
        let c = choose|c: Seq<char>|
            asking.contains(c) && #[trigger] asks_for(variant_map, c, name);
        assert(infos[name].compile_task_dependency == compile_task(variant_map[c]).unwrap());
        assert(compile_task(variant_map[a]) == compile_task(variant_map[c]));
    }
    assert forall|a: Seq<char>, b: Seq<char>, name: Seq<char>|
        grown.contains(a) && grown.contains(b) && #[trigger] asks_for(variant_map, a, name)
            && #[trigger] asks_for(variant_map, b, name) implies compile_task(variant_map[a])
        == compile_task(variant_map[b]) by {
        if a == more && b != more {
            assert(asks_for(variant_map, more, name));
        }
        if b == more && a != more {
            assert(asks_for(variant_map, more, name));
        }
    }
    let left = with_tags(infos, variant, variant_map);
    let right = infos_of(variant_map, grown);
    assert forall|name: Seq<char>| #[trigger] left.contains_key(name) <==> right.contains_key(
        name,
    ) by {
        if infos.contains_key(name) {
            let c = choose|c: Seq<char>|
                asking.contains(c) && #[trigger] asks_for(variant_map, c, name);
            assert(grown.contains(c) && asks_for(variant_map, c, name));
        }
        if is_burn_in_tag_variant(variant, variant_map, name) {
            assert(grown.contains(more) && asks_for(variant_map, more, name));
        }
        if right.contains_key(name) {
            let c = choose|c: Seq<char>|
                grown.contains(c) && #[trigger] asks_for(variant_map, c, name);
            if c != more {
                assert(asking.contains(c) && asks_for(variant_map, c, name));
            }
        }
    }
    assert forall|name: Seq<char>| left.contains_key(name) implies #[trigger] left[name]
        == right[name] by {
        assert(right.contains_key(name));
        let d = choose|d: Seq<char>| grown.contains(d) && #[trigger] asks_for(variant_map, d, name);
        assert(grown.contains(d) && asks_for(variant_map, d, name));
        if infos.contains_key(name) {
            let c = choose|c: Seq<char>|
                asking.contains(c) && #[trigger] asks_for(variant_map, c, name);
            assert(grown.contains(c) && asks_for(variant_map, c, name));
            assert(compile_task(variant_map[c]) == compile_task(variant_map[d]));
        } else {
            assert(grown.contains(more) && asks_for(variant_map, more, name));
            assert(compile_task(variant_map[more]) == compile_task(variant_map[d]));
        }
    }
    assert(left =~= right);
}

/// A build variant that does not run burn_in_tags adds nothing to what is known.
pub(crate) proof fn lemma_infos_stay(
    variant_map: Map<Seq<char>, BuildVariantView>,
    asking: Set<Seq<char>>,
    more: Seq<char>,
)
    requires
        variant_map.contains_key(more),
        !has_task(variant_map[more], BURN_IN_TAGS@),
        compile_tasks_agree(variant_map, asking),
    ensures
        compile_tasks_agree(variant_map, asking.insert(more)),
        infos_of(variant_map, asking) == infos_of(variant_map, asking.insert(more)),
{
    let grown = asking.insert(more);
    let left = infos_of(variant_map, asking);
    let right = infos_of(variant_map, grown);
    assert forall|name: Seq<char>| #[trigger] left.contains_key(name) <==> right.contains_key(
        name,
    ) by {
        if left.contains_key(name) {
            let c = choose|c: Seq<char>|
                asking.contains(c) && #[trigger] asks_for(variant_map, c, name);
            assert(grown.contains(c) && asks_for(variant_map, c, name));
        }
        if right.contains_key(name) {
            let c = choose|c: Seq<char>|
                grown.contains(c) && #[trigger] asks_for(variant_map, c, name);
            assert(asking.contains(c) && asks_for(variant_map, c, name));
        }
    }
    assert forall|name: Seq<char>| left.contains_key(name) implies #[trigger] left[name]
        == right[name] by {
        assert(right.contains_key(name));
        let c = choose|c: Seq<char>| asking.contains(c) && #[trigger] asks_for(variant_map, c, name);
        let d = choose|d: Seq<char>| grown.contains(d) && #[trigger] asks_for(variant_map, d, name);
        assert(asking.contains(c) && asks_for(variant_map, c, name));
        assert(grown.contains(d) && asks_for(variant_map, d, name));
        assert(asking.contains(d));
    }
    assert(left =~= right);
}

/// The burn_in_tags of a build variant fit those of others, if all can be generated.
pub(crate) proof fn lemma_tags_fit(
    variant_map: Map<Seq<char>, BuildVariantView>,
    asking: Set<Seq<char>>,
    more: Seq<char>,
)
    requires
        all_tags_ready(variant_map),
        asking.subset_of(variant_map.dom()),
        variant_map.contains_key(more),
        has_task(variant_map[more], BURN_IN_TAGS@),
    ensures
        can_add_tags(infos_of(variant_map, asking), variant_map[more], variant_map),
{
    let infos = infos_of(variant_map, asking);
    let variant = variant_map[more];
    assert forall|name: Seq<char>| #[trigger]
        is_burn_in_tag_variant(variant, variant_map, name) && infos.contains_key(name) implies Some(
        infos[name].compile_task_dependency,
    ) == compile_task(variant) by {
        let c = choose|c: Seq<char>| asking.contains(c) && #[trigger] asks_for(variant_map, c, name);
        assert(variant_map.dom().contains(c) && asks_for(variant_map, c, name));
        assert(variant_map.dom().contains(more) && asks_for(variant_map, more, name));
        assert(compile_task(variant_map[c]) == compile_task(variant));
    }
}

/// A build variant runs burn_in_tags that have the given problem beside those of others.
pub open spec fn has_tag_problem(
    variant_map: Map<Seq<char>, BuildVariantView>,
    asking: Set<Seq<char>>,
    name: Seq<char>,
    problem: BurnInTagProblemView,
) -> bool {
    &&& asking.subset_of(variant_map.dom())
    &&& compile_tasks_agree(variant_map, asking)
    &&& variant_map.contains_key(name)
    &&& has_task(variant_map[name], BURN_IN_TAGS@)
    &&& is_problem(problem, infos_of(variant_map, asking), variant_map[name], variant_map)
}

/// Find what keeps the burn_in_tags of all build variants from being generated.
///
/// # Arguments
///
/// * `evg_config_utils` - Utilities to work with evergreen project configuration.
/// * `build_variant_map` - A map of build variant names to their definitions.
///
/// # Returns
///
/// The problem, if there is one. Where several build variants have one, it is that of any of them.
pub fn check_burn_in_tags(
    evg_config_utils: &EvgConfigUtilsImpl,
    build_variant_map: &StringMap<&BuildVariant>,
) -> (problem: Option<BurnInTagProblem>)
    ensures
        problem is None <==> all_tags_ready(build_variant_map.deep_view()),
        problem matches Some(problem) ==> exists|asking: Set<Seq<char>>, name: Seq<char>|
            has_tag_problem(build_variant_map.deep_view(), asking, name, problem.deep_view()),
{
    let ghost variant_map = build_variant_map.deep_view();
    let ghost entries = build_variant_map.entries();
    let ghost mut done: Set<Seq<char>> = Set::empty();
    let n: usize = build_variant_map.len();
    let mut infos: StringMap<BurnInTagBuildVariantInfo> = StringMap::new();
    let mut i: usize = 0;
    assert(infos.deep_view() =~= infos_of(variant_map, done));
    while i < n
        invariant
            i <= n,
            n == entries.len(),
            entries == build_variant_map.entries(),
            distinct_keys(entries),
            variant_map == build_variant_map.deep_view(),
            done.subset_of(variant_map.dom()),
            forall|j: int| 0 <= j < i ==> done.contains((#[trigger] entries[j]).0@),
            compile_tasks_agree(variant_map, done),
            infos.deep_view() == infos_of(variant_map, done),
            forall|name: Seq<char>| #[trigger]
                done.contains(name) && has_task(variant_map[name], BURN_IN_TAGS@) ==> tags_ready(
                    variant_map[name],
                    variant_map,
                ),
        decreases n - i,
    {
        let build_variant: &BuildVariant = *build_variant_map.value(i);
        let ghost name = entries[i as int].0@;
        proof {
            lemma_entry(entries, i as int);
            assert(variant_map.contains_key(name));
            assert(variant_map[name] == build_variant.deep_view());
        }
        if runs_task(build_variant, BURN_IN_TAGS) {
            let problem = find_burn_in_tag_problem(
                evg_config_utils,
                &infos,
                build_variant,
                build_variant_map,
            );
            if problem.is_some() {
                proof {
                    assert(has_tag_problem(
                        variant_map,
                        done,
                        name,
                        problem.unwrap().deep_view(),
                    ));
                    if all_tags_ready(variant_map) {
                        lemma_tags_fit(variant_map, done, name);
                    }
                }
                return problem;
            }
            proof {
                lemma_infos_grow(variant_map, done, name);
            }
            generate_burn_in_build_variant_info(
                evg_config_utils,
                &mut infos,
                build_variant,
                build_variant_map,
            );
        } else {
            proof {
                lemma_infos_stay(variant_map, done, name);
            }
        }
        proof {
            done = done.insert(name);
        }
        i += 1;
    }
    proof {
        assert forall|name: Seq<char>| #[trigger] variant_map.contains_key(name) implies
            done.contains(name) by {
            let j = choose|j: int| key_at(entries, j, name);
            assert(done.contains(entries[j].0@));
        }
        assert(done =~= variant_map.dom());
    }
    None
}

} // verus!
