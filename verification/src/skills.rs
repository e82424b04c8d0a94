//! The host skill provider's locators: how a plugin skill's package and main
//! prompt are named, and how a requested resource is matched to a loaded skill.

use vstd::prelude::*;
use vstd::string::StringExecFns;

verus! {

/// Host-owned skill provider backed by an immutable service snapshot.
///
/// Discovery and caching belong to the host skills service; this provider
/// only maps a snapshot into the authority-aware catalog and read contract.
#[derive(Clone, Copy, Debug, Default, PartialEq, Eq, Structural)]
pub struct HostSkillProvider;

impl HostSkillProvider {
    pub fn new() -> (provider: Self)
        ensures
            provider == HostSkillProvider,
    {
        HostSkillProvider
    }
}

/// The authority identifier of host skills.
pub fn host_authority_id() -> (id: &'static str)
    ensures
        id@ == "host"@,
{
    "host"
}

/// The path with every backslash turned into a forward slash.
pub open spec fn forward_slashes(path: Seq<char>) -> Seq<char> {
    path.map_values(|c: char| if c == '\\' { '/' } else { c })
}

/// Renders a path with forward slashes only.
pub fn with_forward_slashes(path: &str) -> (rendered: String)
    ensures
        rendered@ == forward_slashes(path@),
{
    broadcast use vstd::string::axiom_spec_iter;
    let mut rendered = String::new();
    let mut chars = path.chars();
    let ghost mut seen: Seq<char> = Seq::empty();
    loop
        invariant
            seen + vstd::std_specs::iter::IteratorSpec::remaining(&chars) == path@,
            vstd::std_specs::iter::IteratorSpec::obeys_prophetic_iter_laws(&chars),
            rendered@ == forward_slashes(seen),
            seen.len() <= path@.len(),
        decreases path@.len() - seen.len(),
    {
        let ghost before = vstd::std_specs::iter::IteratorSpec::remaining(&chars);
        match chars.next() {
            Option::None => {
                assert(seen == path@);
                return rendered;
            },
            Option::Some(c) => {
                proof {
                    assert(before == seq![c] + before.drop_first());
                    assert(seen + before == seen.push(c)
                        + vstd::std_specs::iter::IteratorSpec::remaining(&chars));
                }
                if c == '\\' {
                    rendered.append("/");
                } else {
                    let mut single = String::new();
                    single.append(char_text(c).as_str());
                    rendered.append(single.as_str());
                }
                proof {
                    reveal_strlit("/");
                    assert(forward_slashes(seen.push(c)) == forward_slashes(seen).push(
                        if c == '\\' { '/' } else { c },
                    ));
                    seen = seen.push(c);
                }
            },
        }
    }
}

/// One character as text, as `char::to_string` gives it.
#[verifier::external_body]
fn char_text(c: char) -> (text: String)
    ensures
        text@ == seq![c],
{
    c.to_string()
}

/// A plugin skill's package and main-prompt resource.
///
/// The package is `skill://` followed by the plugin id and, when the skill's
/// directory below its root is not the root itself, a slash and that
/// directory (with forward slashes); the main prompt is the package followed
/// by `/SKILL.md`.
pub open spec fn plugin_package(plugin_id: Seq<char>, relative_directory: Seq<char>) -> Seq<char> {
    let directory = forward_slashes(relative_directory);
    if directory.len() == 0 {
        "skill://"@ + plugin_id
    } else {
        "skill://"@ + plugin_id + "/"@ + directory
    }
}

/// The package and main prompt of a skill that a plugin provides, or `None`
/// for a skill that belongs to no plugin or lies outside every skill root.
pub fn plugin_skill_locator(plugin_id: Option<&str>, relative_directory: Option<&str>) -> (locator:
    Option<(String, String)>)
    ensures
        locator is Some <==> (plugin_id is Some && relative_directory is Some),
        locator is Some ==> locator.unwrap().0@ == plugin_package(
            plugin_id.unwrap()@,
            relative_directory.unwrap()@,
        ) && locator.unwrap().1@ == locator.unwrap().0@ + "/SKILL.md"@,
{
    let plugin_id = match plugin_id {
        Option::Some(id) => id,
        Option::None => return Option::None,
    };
    let relative_directory = match relative_directory {
        Option::Some(directory) => directory,
        Option::None => return Option::None,
    };
    let directory = with_forward_slashes(relative_directory);
    let mut package = String::from_str("skill://");
    package.append(plugin_id);
    if !directory.as_str().is_empty() {
        package.append("/");
        package.append(directory.as_str());
    }
    proof {
        reveal_strlit("/");
        reveal_strlit("skill://");
    }
    let mut resource = String::new();
    resource.append(package.as_str());
    resource.append("/SKILL.md");
    Option::Some((package, resource))
}

/// A loaded skill answers a request for `resource` when its path, as given or
/// with forward slashes, is that resource.
pub open spec fn skill_path_matches(skill_path: Seq<char>, resource: Seq<char>) -> bool {
    skill_path == resource || forward_slashes(skill_path) == resource
}

pub fn skill_path_matches_resource(skill_path: &str, resource: &str) -> (matches: bool)
    ensures
        matches == skill_path_matches(skill_path@, resource@),
{
    let direct = skill_path.to_owned();
    let wanted = resource.to_owned();
    if String::eq(&direct, &wanted) {
        return true;
    }
    let slashed = with_forward_slashes(skill_path);
    String::eq(&slashed, &wanted)
}

/// What a loaded skill offers to a read: its plugin package, if it has one,
/// and its path.
pub struct LoadedSkill {
    pub package: Option<String>,
    pub path: String,
}

/// Which skill a read request is served from.
#[derive(Clone, Copy, Debug, PartialEq, Eq, Structural)]
pub enum ReadTarget {
    /// A resource inside the package of the plugin skill at this index.
    PluginResource(usize),
    /// The main prompt of the skill at this index, read from the host snapshot.
    SkillPrompt(usize),
    /// No loaded skill has the resource.
    NotLoaded,
}

pub open spec fn package_matches(skill: LoadedSkill, package: Seq<char>) -> bool {
    skill.package matches Option::Some(p) && p@ == package
}

/// `target` is the skill a read of `resource` in `package` is served from:
/// the first plugin skill whose package is the requested one; failing that,
/// the first skill whose path is the requested resource; failing that, none.
pub open spec fn read_target_selected(
    skills: Seq<LoadedSkill>,
    package: Seq<char>,
    resource: Seq<char>,
    target: ReadTarget,
) -> bool {
    match target {
        ReadTarget::PluginResource(i) => i < skills.len() && package_matches(skills[i as int], package)
            && forall|j: int| 0 <= j < i ==> !package_matches(#[trigger] skills[j], package),
        ReadTarget::SkillPrompt(i) => i < skills.len() && (forall|j: int|
            0 <= j < skills.len() ==> !package_matches(#[trigger] skills[j], package))
            && skill_path_matches(skills[i as int].path@, resource) && forall|j: int|
            0 <= j < i ==> !skill_path_matches(#[trigger] skills[j].path@, resource),
        ReadTarget::NotLoaded => (forall|j: int|
            0 <= j < skills.len() ==> !package_matches(#[trigger] skills[j], package)) && forall|j: int|
            0 <= j < skills.len() ==> !skill_path_matches(#[trigger] skills[j].path@, resource),
    }
}

/// Chooses the skill a read is served from.
pub fn select_read_target(skills: &[LoadedSkill], package: &str, resource: &str) -> (target: ReadTarget)
    ensures
        read_target_selected(skills@, package@, resource@, target),
{
    let wanted = package.to_owned();
    let mut i: usize = 0;
    while i < skills.len()
        invariant
            i <= skills@.len(),
            wanted@ == package@,
            forall|j: int| 0 <= j < i ==> !package_matches(#[trigger] skills@[j], package@),
        decreases skills@.len() - i,
    {
        let found = match &skills[i].package {
            Option::Some(p) => String::eq(p, &wanted),
            Option::None => false,
        };
        if found {
            return ReadTarget::PluginResource(i);
        }
        i = i + 1;
    }
    let mut k: usize = 0;
    while k < skills.len()
        invariant
            k <= skills@.len(),
            forall|j: int| 0 <= j < skills@.len() ==> !package_matches(#[trigger] skills@[j], package@),
            forall|j: int| 0 <= j < k ==> !skill_path_matches(#[trigger] skills@[j].path@, resource@),
        decreases skills@.len() - k,
    {
        if skill_path_matches_resource(skills[k].path.as_str(), resource) {
            return ReadTarget::SkillPrompt(k);
        }
        k = k + 1;
    }
    ReadTarget::NotLoaded
}

impl HostSkillProvider {
    /// Where a read is served from: refused without a snapshot, and refused
    /// as not loaded when no skill has the resource.
    pub fn read_target(&self, snapshot: Option<&[LoadedSkill]>, package: &str, resource: &str) -> (target:
        Result<ReadTarget, String>)
        ensures
            snapshot is None ==> target is Err && target->Err_0@
                == "host skill provider requires a host skills snapshot"@,
            snapshot matches Option::Some(skills) ==> match target {
                Ok(t) => t != ReadTarget::NotLoaded && read_target_selected(skills@, package@, resource@, t),
                Err(message) => read_target_selected(skills@, package@, resource@, ReadTarget::NotLoaded)
                    && message@ == "host skill resource is not loaded: "@ + resource@,
            },
    {
        match snapshot {
            Option::None => Err(String::from_str(missing_snapshot_message())),
            Option::Some(skills) => match select_read_target(skills, package, resource) {
                ReadTarget::NotLoaded => Err(not_loaded_message(resource)),
                found => Ok(found),
            },
        }
    }
}

/// The error text for a resource no loaded skill has.
pub fn not_loaded_message(resource: &str) -> (message: String)
    ensures
        message@ == "host skill resource is not loaded: "@ + resource@,
{
    let mut message = String::from_str("host skill resource is not loaded: ");
    message.append(resource);
    message
}

/// The error text for a resource outside its skill's package.
pub fn outside_package_message(resource: &str) -> (message: String)
    ensures
        message@ == "host skill resource is outside its package: "@ + resource@,
{
    let mut message = String::from_str("host skill resource is outside its package: ");
    message.append(resource);
    message
}

/// The error text for a resource that could not be read.
pub fn read_failure_message(resource: &str) -> (message: String)
    ensures
        message@ == "failed to read host skill resource "@ + resource@,
{
    let mut message = String::from_str("failed to read host skill resource ");
    message.append(resource);
    message
}

/// The error text when a provider is asked without a host snapshot.
pub fn missing_snapshot_message() -> (message: &'static str)
    ensures
        message@ == "host skill provider requires a host skills snapshot"@,
{
    "host skill provider requires a host skills snapshot"
}


/// What the catalog needs of one loaded skill, as plain values.
///
/// `relative_directory` is the directory of the skill's main prompt below the
/// skill root that holds it (empty for a prompt directly in the root), and is
/// absent when the skill lies outside every root; `root` is that root.
pub struct SkillSummary {
    pub path: String,
    pub name: String,
    pub description: String,
    pub short_description: Option<String>,
    pub plugin_id: Option<String>,
    pub relative_directory: Option<String>,
    pub discovery_path: Option<String>,
    pub root: Option<String>,
    pub enabled: bool,
    pub allows_implicit_invocation: bool,
    /// The scope the skill's prompt belongs to, by name.
    pub prompt_scope: String,
    /// The skill's declared dependencies, as their serialized text.
    pub dependencies: Option<String>,
}

/// Where a catalog entry's skill comes from.
#[derive(Clone, Copy, Debug, PartialEq, Eq, Structural)]
pub enum SkillSourceKind {
    /// A skill of the host skills snapshot.
    Host,
}

/// A skill that failed to load.
pub struct SkillLoadError {
    pub path: String,
    pub message: String,
}

/// One entry of the host skill catalog.
pub struct CatalogEntry {
    pub package: String,
    pub source_kind: SkillSourceKind,
    pub authority_id: String,
    pub name: String,
    pub description: String,
    pub main_prompt: String,
    pub short_description: Option<String>,
    pub plugin_id: Option<String>,
    pub plugin_package: bool,
    pub display_path: Option<String>,
    pub alias_root: Option<String>,
    pub alias_root_order: Option<usize>,
    pub enabled: bool,
    pub hidden_from_prompt: bool,
    pub prompt_scope: String,
    pub dependencies: Option<String>,
}

/// The host skill catalog: one entry per loaded skill, one warning per skill
/// that failed to load.
pub struct SkillCatalog {
    pub entries: Vec<CatalogEntry>,
    pub warnings: Vec<String>,
}

pub open spec fn text_option(value: Option<String>) -> Option<Seq<char>> {
    match value {
        Option::None => Option::None,
        Option::Some(s) => Option::Some(s@),
    }
}

/// The package and main prompt of a summarized skill, when it is a plugin skill.
pub open spec fn summary_locator(skill: SkillSummary) -> Option<(Seq<char>, Seq<char>)> {
    if skill.plugin_id is Some && skill.relative_directory is Some {
        let package = plugin_package(skill.plugin_id.unwrap()@, skill.relative_directory.unwrap()@);
        Option::Some((package, package + "/SKILL.md"@))
    } else {
        Option::None
    }
}

/// A plugin skill's package and main prompt depend only on its plugin and its
/// directory below the skill root (with either slash), not on where the root
/// lies: the package stays the same across cache revisions of the plugin.
pub proof fn lemma_plugin_locator_ignores_location(first: SkillSummary, second: SkillSummary)
    requires
        first.plugin_id is Some,
        first.relative_directory is Some,
        second.plugin_id is Some,
        second.relative_directory is Some,
        first.plugin_id.unwrap()@ == second.plugin_id.unwrap()@,
        forward_slashes(first.relative_directory.unwrap()@) == forward_slashes(
            second.relative_directory.unwrap()@,
        ),
    ensures
        summary_locator(first) is Some,
        summary_locator(first) == summary_locator(second),
{
}

/// The fields of an entry that depend on the skill alone.
pub open spec fn entry_core(entry: CatalogEntry, skill: SkillSummary) -> bool {
    let locator = summary_locator(skill);
    &&& entry.plugin_package == locator is Some
    &&& locator is Some ==> entry.package@ == locator.unwrap().0 && entry.main_prompt@
        == locator.unwrap().1
    &&& locator is None ==> entry.package@ == skill.path@ && entry.main_prompt@ == skill.path@
    &&& entry.source_kind == SkillSourceKind::Host
    &&& entry.authority_id@ == "host"@
    &&& entry.prompt_scope@ == skill.prompt_scope@
    &&& text_option(entry.dependencies) == text_option(skill.dependencies)
    &&& entry.name@ == skill.name@
    &&& entry.description@ == skill.description@
    &&& text_option(entry.short_description) == text_option(skill.short_description)
    &&& text_option(entry.plugin_id) == text_option(skill.plugin_id)
    &&& entry.enabled == skill.enabled
    &&& entry.hidden_from_prompt == !skill.allows_implicit_invocation
}

/// The entry a skill gives before the catalog adds its discovery locators: a
/// plugin skill is named by its package, any other skill by its path, which
/// it also shows with forward slashes.
pub open spec fn entry_from_skill(entry: CatalogEntry, skill: SkillSummary) -> bool {
    &&& entry_core(entry, skill)
    &&& text_option(entry.display_path) == if summary_locator(skill) is Some {
        Option::None
    } else {
        Option::Some(forward_slashes(skill.path@))
    }
    &&& entry.alias_root is None
    &&& entry.alias_root_order is None
}

/// `order` is where `root` stands among the roots in discovery order, as
/// path equality finds it: some position whenever a root has the same text,
/// and no root after it has the same text.
pub open spec fn root_order_fits(order: Option<usize>, roots: Seq<Seq<char>>, root: Seq<char>) -> bool {
    &&& (exists|i: int| 0 <= i < roots.len() && #[trigger] roots[i] == root) ==> order is Some
    &&& order matches Option::Some(i) ==> i < roots.len() && forall|j: int|
        i < j < roots.len() ==> #[trigger] roots[j] != root
}

pub open spec fn root_texts(roots: Seq<String>) -> Seq<Seq<char>> {
    roots.map_values(|root: String| root@)
}

/// The catalog entry of a skill: a skill that is no plugin package shows its
/// discovery path when it has one, and is aliased by its root and the root's
/// place in discovery order.
pub open spec fn catalog_entry(entry: CatalogEntry, skill: SkillSummary, roots: Seq<Seq<char>>) -> bool {
    &&& entry_core(entry, skill)
    &&& if summary_locator(skill) is Some {
        &&& entry.display_path is None
        &&& entry.alias_root is None
        &&& entry.alias_root_order is None
    } else {
        &&& text_option(entry.display_path) == Option::Some(
            forward_slashes(
                if skill.discovery_path is Some {
                    skill.discovery_path.unwrap()@
                } else {
                    skill.path@
                },
            ),
        )
        &&& text_option(entry.alias_root) == match skill.root {
            Option::Some(root) => Option::Some(forward_slashes(root@)),
            Option::None => Option::None,
        }
        &&& match skill.root {
            Option::Some(root) => root_order_fits(entry.alias_root_order, roots, root@),
            Option::None => entry.alias_root_order is None,
        }
    }
}

impl SkillCatalog {
    /// The catalog of a snapshot: one entry per skill, in order, and one
    /// warning per load error, in order.
    pub open spec fn describes(
        self,
        skills: Seq<SkillSummary>,
        errors: Seq<SkillLoadError>,
        roots: Seq<String>,
    ) -> bool {
        &&& self.entries@.len() == skills.len()
        &&& forall|i: int|
            0 <= i < skills.len() ==> catalog_entry(
                #[trigger] self.entries@[i],
                skills[i],
                root_texts(roots),
            )
        &&& self.warnings@.len() == errors.len()
        &&& forall|i: int| 0 <= i < errors.len() ==> #[trigger] self.warnings@[i]@ == load_warning(errors[i])
    }
}

/// What a host skills snapshot holds for listing: its loaded skills, its
/// load errors, and its skill roots in discovery order.
pub struct SkillSnapshot {
    pub skills: Vec<SkillSummary>,
    pub errors: Vec<SkillLoadError>,
    pub roots: Vec<String>,
}

impl HostSkillProvider {
    /// Lists the catalog of the host snapshot; without a snapshot the request
    /// is refused.
    pub fn list(&self, snapshot: Option<&SkillSnapshot>) -> (catalog: Result<SkillCatalog, String>)
        ensures
            snapshot is None ==> catalog is Err && catalog->Err_0@
                == "host skill provider requires a host skills snapshot"@,
            snapshot matches Option::Some(s) ==> catalog is Ok && catalog->Ok_0.describes(
                s.skills@,
                s.errors@,
                s.roots@,
            ),
    {
        match snapshot {
            Option::None => Err(String::from_str(missing_snapshot_message())),
            Option::Some(s) => Ok(
                catalog_from_outcome(s.skills.as_slice(), s.errors.as_slice(), s.roots.as_slice()),
            ),
        }
    }
}

/// The warning for a skill that failed to load.
pub open spec fn load_warning(error: SkillLoadError) -> Seq<char> {
    "Failed to load skill at "@ + error.path@ + ": "@ + error.message@
}

/// The catalog entry a skill gives on its own.
pub fn catalog_entry_from_skill(skill: &SkillSummary) -> (entry: CatalogEntry)
    ensures
        entry_from_skill(entry, *skill),
        copies_skill(entry, *skill),
{
    let locator = plugin_skill_locator(
        match &skill.plugin_id {
            Option::Some(id) => Option::Some(id.as_str()),
            Option::None => Option::None,
        },
        match &skill.relative_directory {
            Option::Some(directory) => Option::Some(directory.as_str()),
            Option::None => Option::None,
        },
    );
    let plugin_package = locator.is_some();
    let (package, main_prompt) = match locator {
        Option::Some(found) => found,
        Option::None => (skill.path.clone(), skill.path.clone()),
    };
    let display_path = if plugin_package {
        Option::None
    } else {
        Option::Some(with_forward_slashes(skill.path.as_str()))
    };
    CatalogEntry {
        package,
        source_kind: SkillSourceKind::Host,
        authority_id: String::from_str(host_authority_id()),
        name: skill.name.clone(),
        description: skill.description.clone(),
        main_prompt,
        short_description: crate::input_queue::copy_opt_string(&skill.short_description),
        plugin_id: crate::input_queue::copy_opt_string(&skill.plugin_id),
        plugin_package,
        display_path,
        alias_root: Option::None,
        alias_root_order: Option::None,
        enabled: skill.enabled,
        hidden_from_prompt: !skill.allows_implicit_invocation,
        prompt_scope: skill.prompt_scope.clone(),
        dependencies: crate::input_queue::copy_opt_string(&skill.dependencies),
    }
}

/// Compares two paths with `Path`'s equality, which compares their
/// components.
///
/// Which texts name the same path depends on the platform's path rules; the
/// contract states only that equal texts name the same path.
#[verifier::external_body]
fn same_path(first: &str, second: &str) -> (same: bool)
    ensures
        first@ == second@ ==> same,
{
    std::path::Path::new(first) == std::path::Path::new(second)
}

/// The last position among `roots` of a root that is the same path as `root`.
pub fn root_order(roots: &[String], root: &str) -> (order: Option<usize>)
    ensures
        root_order_fits(order, root_texts(roots@), root@),
{
    let ghost texts = root_texts(roots@);
    let mut order: Option<usize> = Option::None;
    let mut i: usize = 0;
    while i < roots.len()
        invariant
            i <= roots@.len(),
            texts == root_texts(roots@),
            (exists|j: int| 0 <= j < i && #[trigger] texts[j] == root@) ==> order is Some,
            order matches Option::Some(k) ==> k < i && forall|j: int| k < j < i ==> #[trigger] texts[j] != root@,
        decreases roots@.len() - i,
    {
        assert(texts[i as int] == roots@[i as int]@);
        if same_path(roots[i].as_str(), root) {
            order = Option::Some(i);
        }
        i = i + 1;
    }
    order
}

/// The warning text for a skill that failed to load.
pub fn load_warning_text(error: &SkillLoadError) -> (warning: String)
    ensures
        warning@ == load_warning(*error),
{
    let mut warning = String::from_str("Failed to load skill at ");
    warning.append(error.path.as_str());
    warning.append(": ");
    warning.append(error.message.as_str());
    warning
}

/// The host skill catalog of a loaded snapshot: an entry for each skill, in
/// order, and a warning for each skill that failed to load.
pub fn catalog_from_outcome(skills: &[SkillSummary], errors: &[SkillLoadError], roots: &[String]) -> (catalog: SkillCatalog)
    ensures
        catalog.describes(skills@, errors@, roots@),
        forall|i: int| 0 <= i < skills@.len() ==> copies_skill(#[trigger] catalog.entries@[i], skills@[i]),
{
    let mut warnings: Vec<String> = Vec::new();
    let mut w: usize = 0;
    while w < errors.len()
        invariant
            w <= errors@.len(),
            warnings@.len() == w,
            forall|i: int| 0 <= i < w ==> #[trigger] warnings@[i]@ == load_warning(errors@[i]),
        decreases errors@.len() - w,
    {
        warnings.push(load_warning_text(&errors[w]));
        w = w + 1;
    }
    let mut entries: Vec<CatalogEntry> = Vec::new();
    let mut k: usize = 0;
    while k < skills.len()
        invariant
            k <= skills@.len(),
            entries@.len() == k,
            forall|i: int|
                0 <= i < k ==> catalog_entry(#[trigger] entries@[i], skills@[i], root_texts(roots@)),
        decreases skills@.len() - k,
    {
        let skill = &skills[k];
        let mut entry = catalog_entry_from_skill(skill);
        if !entry.plugin_package {
            if let Option::Some(discovery) = &skill.discovery_path {
                entry.display_path = Option::Some(with_forward_slashes(discovery.as_str()));
            }
            if let Option::Some(root) = &skill.root {
                entry.alias_root = Option::Some(with_forward_slashes(root.as_str()));
                entry.alias_root_order = root_order(roots, root.as_str());
            }
        }
        entries.push(entry);
        k = k + 1;
    }
    let catalog = SkillCatalog { entries, warnings };
    proof {
        lemma_catalog_entries_copy_their_skills(catalog, skills@, errors@, roots@);
    }
    catalog
}


/// The kind of one component of a path, as `std::path::Component` tells them apart.
#[derive(Clone, Copy, Debug, PartialEq, Eq, Structural)]
pub enum PathComponentKind {
    Prefix,
    RootDir,
    CurDir,
    ParentDir,
    Normal,
}

/// The path names `..` as one of its `/`-separated segments.
pub open spec fn has_parent_segment(path: Seq<char>) -> bool {
    exists|i: int|
        0 <= i && i + 2 <= path.len() && #[trigger] path[i] == '.' && path[i + 1] == '.' && (i == 0
            || path[i - 1] == '/') && (i + 2 == path.len() || path[i + 2] == '/')
}

/// The path holds no backslash (no Windows separator or verbatim prefix).
pub open spec fn has_no_backslash(path: Seq<char>) -> bool {
    forall|i: int| 0 <= i < path.len() ==> #[trigger] path[i] != '\\'
}

/// The path starts with two separators (on Windows, a UNC or device prefix).
pub open spec fn starts_with_two_slashes(path: Seq<char>) -> bool {
    path.len() >= 2 && path[0] == '/' && path[1] == '/'
}

/// The path's first `/`-separated segment is `.`.
pub open spec fn starts_with_dot_segment(path: Seq<char>) -> bool {
    path.len() >= 1 && path[0] == '.' && (path.len() == 1 || path[1] == '/')
}

/// The path names `.` as one of its `/`-separated segments.
pub open spec fn has_dot_segment(path: Seq<char>) -> bool {
    exists|i: int|
        0 <= i < path.len() && #[trigger] path[i] == '.' && (i == 0 || path[i - 1] == '/') && (i + 1
            == path.len() || path[i + 1] == '/')
}

/// A plain relative path: one or more names separated by single `/`, no
/// name empty, `.` or `..`, and no `\`, `:` or `/` inside a name, so that
/// no platform reads a prefix, a root or a directory step in it.
pub open spec fn is_plain_relative_path(path: Seq<char>) -> bool {
    &&& path.len() > 0
    &&& path[0] != '/'
    &&& path[path.len() - 1] != '/'
    &&& forall|i: int| 0 <= i < path.len() ==> #[trigger] path[i] != '\\' && path[i] != ':'
    &&& forall|i: int| 0 <= i < path.len() - 1 ==> !(#[trigger] path[i] == '/' && path[i + 1] == '/')
    &&& !has_dot_segment(path)
    &&& !has_parent_segment(path)
}

/// Splits a path with `std::path::Path::components` and tells each
/// component's kind.
///
/// The components depend on the platform's path rules (on Windows `/` is no
/// separator inside a verbatim prefix, and a leading `//` starts a UNC or
/// device prefix), so the contract states only what the documentation gives
/// on every platform: for a path without backslashes, a leading `/` gives a
/// root (or a prefix); when it does not start with `//`, a `..` segment gives
/// a parent-directory component; a leading `.` segment gives a current-
/// directory component; and a plain relative path gives only names.
#[verifier::external_body]
fn path_component_kinds(path: &str) -> (kinds: Vec<PathComponentKind>)
    ensures
        has_no_backslash(path@) && path@.len() > 0 && path@[0] == '/' ==> exists|i: int|
            0 <= i < kinds@.len() && #[trigger] kinds@[i] != PathComponentKind::Normal,
        has_no_backslash(path@) && !starts_with_two_slashes(path@) && has_parent_segment(path@)
            ==> exists|i: int|
            0 <= i < kinds@.len() && #[trigger] kinds@[i] == PathComponentKind::ParentDir,
        starts_with_dot_segment(path@) ==> kinds@.len() > 0 && kinds@[0] == PathComponentKind::CurDir,
        is_plain_relative_path(path@) ==> forall|i: int|
            0 <= i < kinds@.len() ==> #[trigger] kinds@[i] == PathComponentKind::Normal,
{
    let kinds = std::path::Path::new(path).components().map(|component| match component {
        std::path::Component::Prefix(_) => PathComponentKind::Prefix,
        std::path::Component::RootDir => PathComponentKind::RootDir,
        std::path::Component::CurDir => PathComponentKind::CurDir,
        std::path::Component::ParentDir => PathComponentKind::ParentDir,
        std::path::Component::Normal(_) => PathComponentKind::Normal,
    });
    kinds.collect()
}

/// Whether every component is a plain name.
pub fn components_stay_inside(kinds: &[PathComponentKind]) -> (ok: bool)
    ensures
        ok == forall|i: int| 0 <= i < kinds@.len() ==> #[trigger] kinds@[i] == PathComponentKind::Normal,
{
    let mut i: usize = 0;
    while i < kinds.len()
        invariant
            i <= kinds@.len(),
            forall|j: int| 0 <= j < i ==> #[trigger] kinds@[j] == PathComponentKind::Normal,
        decreases kinds@.len() - i,
    {
        if kinds[i] != PathComponentKind::Normal {
            return false;
        }
        i = i + 1;
    }
    true
}

/// Whether a resource path relative to a plugin package stays inside it:
/// every component `std::path::Path` finds is a plain name.  A plain relative
/// path always does; an absolute path, one that names `..`, or one that
/// starts with `.` never does.
pub fn relative_path_stays_inside(relative: &str) -> (ok: bool)
    ensures
        is_plain_relative_path(relative@) ==> ok,
        has_no_backslash(relative@) && relative@.len() > 0 && relative@[0] == '/' ==> !ok,
        has_no_backslash(relative@) && !starts_with_two_slashes(relative@) && has_parent_segment(
            relative@,
        ) ==> !ok,
        starts_with_dot_segment(relative@) ==> !ok,
{
    let kinds = path_component_kinds(relative);
    components_stay_inside(kinds.as_slice())
}

/// Compares paths with `std::path::Path::starts_with`, which matches whole
/// components.
///
/// Which texts match depends on the platform's path rules; the contract
/// states only that a path starts with itself.
#[verifier::external_body]
fn path_starts_with(path: &str, base: &str) -> (starts: bool)
    ensures
        path@ == base@ ==> starts,
{
    std::path::Path::new(path).starts_with(base)
}

/// Checks that a plugin resource, once resolved on disk, still lies below its
/// package's directory; otherwise the read is refused as outside the package.
pub fn resolved_resource_check(resource: &str, package_root: &str, resolved: &str) -> (checked:
    Result<(), String>)
    ensures
        resolved@ == package_root@ ==> checked is Ok,
        checked matches Err(message) ==> message@ == "host skill resource is outside its package: "@
            + resource@,
{
    if path_starts_with(resolved, package_root) {
        Ok(())
    } else {
        Err(outside_package_message(resource))
    }
}

/// What an entry copies from its skill: the name, the descriptions, the
/// plugin, the prompt scope and the dependencies as they are; it is enabled
/// exactly when the skill is, hidden from the prompt exactly when the skill
/// disallows implicit invocation, and comes from the host.
pub open spec fn copies_skill(entry: CatalogEntry, skill: SkillSummary) -> bool {
    &&& entry.name@ == skill.name@
    &&& entry.description@ == skill.description@
    &&& text_option(entry.short_description) == text_option(skill.short_description)
    &&& text_option(entry.plugin_id) == text_option(skill.plugin_id)
    &&& entry.prompt_scope@ == skill.prompt_scope@
    &&& text_option(entry.dependencies) == text_option(skill.dependencies)
    &&& entry.enabled == skill.enabled
    &&& entry.hidden_from_prompt == !skill.allows_implicit_invocation
    &&& entry.source_kind == SkillSourceKind::Host
    &&& entry.authority_id@ == "host"@
}

/// Every entry of a listed catalog copies its skill's own fields, in the
/// order the skills were loaded.
pub proof fn lemma_catalog_entries_copy_their_skills(
    catalog: SkillCatalog,
    skills: Seq<SkillSummary>,
    errors: Seq<SkillLoadError>,
    roots: Seq<String>,
)
    requires
        catalog.describes(skills, errors, roots),
    ensures
        catalog.entries@.len() == skills.len(),
        forall|i: int| 0 <= i < skills.len() ==> copies_skill(#[trigger] catalog.entries@[i], skills[i]),
{
    assert forall|i: int| 0 <= i < skills.len() implies copies_skill(
        #[trigger] catalog.entries@[i],
        skills[i],
    ) by {
        assert(catalog_entry(catalog.entries@[i], skills[i], root_texts(roots)));
    }
}

/// The entry a skill gives on its own copies the skill's own fields.
pub proof fn lemma_entry_copies_its_skill(entry: CatalogEntry, skill: SkillSummary)
    requires
        entry_from_skill(entry, skill),
    ensures
        copies_skill(entry, skill),
{
}

} // verus!
