use ironclaw::grant::MountView;
use ironclaw::readiness::RebornCompositionProfile;
use ironclaw::scope::ResourceScope;
use ironclaw::skills::command::{
    check_profile, collect_skill_groups, group_heading, GroupsOutcome, IdentityCheck, ListAnswer,
    OwnerSkills, SkillGroup, SkillGroupOwner, SkillGroupsError, SkillListConfig, SkillOwnerFilter,
    SkillsCommand, SkillsDetails, SkillsListCommand, SkillsOutput, SourceAnswer,
};
use ironclaw::skills::listing::{
    list_reborn_bundled_skills, list_reborn_local_skills_for_owner, map_skill_management_error,
    RebornBuildError, RebornSkillListError,
};
use ironclaw::skills::management::{
    invalid_skill_context, ScopedSkillManagementError, ScopedSkillManagementPort, SkillManagementCall,
    SkillManagementError, SkillInstallSource, SkillManagementErrorKind, SkillOperation,
};
use ironclaw::skills::owners::{
    child_directories, discover_skill_owners, open_skill_listing_source, DirectoryAnswer,
    DirectoryEntry, OpenOutcome, RootInspection, SkillOwner, SkillsListing, TenantNode,
    TenantsListing, UserNode, UsersListing, WalkOutcome, WalkQuestion,
};
use ironclaw::skills::{sort_skills, ManagedSkillSource, SkillSummary};

fn skill(name: &str, source: ManagedSkillSource) -> SkillSummary {
    SkillSummary {
        name: name.to_string(),
        source,
        description: format!("{name} description"),
        version: String::new(),
        keywords: Vec::new(),
        tags: Vec::new(),
        requires_skills: Vec::new(),
    }
}

fn bundled() -> Result<Vec<SkillSummary>, RebornBuildError> {
    Ok(vec![
        skill("web-search", ManagedSkillSource::System),
        skill("code-review", ManagedSkillSource::System),
    ])
}

fn names(skills: &[SkillSummary]) -> Vec<String> {
    skills.iter().map(|skill| skill.name.clone()).collect()
}

#[test]
fn bundled_skill_list_reports_embedded_system_skills() {
    let skills = list_reborn_bundled_skills(bundled()).expect("list bundled skills");

    assert!(skills
        .iter()
        .any(|skill| skill.name == "code-review" && skill.source == ManagedSkillSource::System));
    assert_eq!(names(&skills), vec!["code-review", "web-search"]);
}

#[test]
fn owner_skill_list_reports_every_stored_user_skill() {
    let stored: Vec<SkillSummary> = (0..55)
        .map(|index| skill(&format!("list-skill-{index:02}"), ManagedSkillSource::User))
        .collect();
    let skills = list_reborn_local_skills_for_owner(Ok(stored), bundled()).expect("owner skills");

    assert!(skills.iter().any(|skill| skill.name == "list-skill-54"));
    assert_eq!(skills.len(), 55);
    assert!(skills
        .iter()
        .filter(|skill| skill.name.starts_with("list-skill-"))
        .all(|skill| skill.source == ManagedSkillSource::User));
}

#[test]
fn user_skill_and_bundled_duplicate_name_both_survive() {
    let owned = list_reborn_local_skills_for_owner(
        Ok(vec![skill("code-review", ManagedSkillSource::User)]),
        bundled(),
    )
    .expect("list owner skills");
    let bundled = list_reborn_bundled_skills(bundled()).expect("list bundled skills");

    assert!(owned
        .iter()
        .any(|skill| skill.name == "code-review" && skill.source == ManagedSkillSource::User));
    assert!(bundled
        .iter()
        .any(|skill| skill.name == "code-review" && skill.source == ManagedSkillSource::System));
}

#[test]
fn stored_system_skill_defers_to_embedded_bundled_summary() {
    let mut stale = skill("code-review", ManagedSkillSource::System);
    stale.description = "old system description".to_string();
    let bundled_code_review = list_reborn_bundled_skills(bundled())
        .expect("list bundled skills")
        .into_iter()
        .find(|skill| skill.name == "code-review")
        .expect("bundled code-review");
    let owned = list_reborn_local_skills_for_owner(
        Ok(vec![stale, skill("local-only", ManagedSkillSource::System)]),
        bundled(),
    )
    .expect("list owner skills");

    assert!(
        !owned
            .iter()
            .any(|skill| skill.name == "code-review"
                && skill.source == ManagedSkillSource::System),
        "storage system skill must not duplicate the bundled summary"
    );
    assert_ne!(bundled_code_review.description, "old system description");
    assert_eq!(names(&owned), vec!["local-only"]);
}

#[test]
fn skills_are_ordered_by_name_then_source() {
    let mut skills = vec![
        skill("b", ManagedSkillSource::User),
        skill("a", ManagedSkillSource::User),
        skill("a", ManagedSkillSource::System),
    ];
    sort_skills(&mut skills);
    assert_eq!(names(&skills), vec!["a", "a", "b"]);
    assert_eq!(skills[0].source, ManagedSkillSource::System);
}

fn failure(kind: SkillManagementErrorKind, reason: Option<&str>) -> SkillManagementError {
    SkillManagementError {
        kind,
        reason: reason.map(|text| text.to_string()),
    }
}

#[test]
fn listing_errors_are_told_apart() {
    assert_eq!(
        map_skill_management_error(failure(SkillManagementErrorKind::NotFound, Some("gone"))),
        RebornSkillListError::InvalidRequest {
            reason: "gone".to_string()
        }
    );
    assert_eq!(
        map_skill_management_error(failure(SkillManagementErrorKind::Conflict, None)),
        RebornSkillListError::InvalidRequest {
            reason: "skill management request rejected".to_string()
        }
    );
    assert_eq!(
        map_skill_management_error(failure(SkillManagementErrorKind::FilesystemDenied, None)),
        RebornSkillListError::AccessDenied
    );
    let unavailable =
        map_skill_management_error(failure(SkillManagementErrorKind::Resource, Some("x")));
    assert_eq!(
        unavailable.message(""),
        "skill list unavailable: skill management resource unavailable"
    );
    assert_eq!(
        list_reborn_local_skills_for_owner(
            Err(invalid_skill_context("no mounts".to_string())),
            bundled()
        ),
        Err(RebornSkillListError::InvalidRequest {
            reason: "no mounts".to_string()
        })
    );
    let broken = RebornBuildError::Mount {
        reason: "m".to_string(),
    };
    assert_eq!(
        list_reborn_bundled_skills(Err(broken.clone())),
        Err(RebornSkillListError::Build(broken))
    );
}

fn scope() -> ResourceScope {
    ResourceScope {
        tenant_id: "default".to_string(),
        user_id: "list-owner".to_string(),
        agent_id: None,
        project_id: None,
        mission_id: None,
        thread_id: None,
        invocation_id: 1,
    }
}

#[test]
fn management_calls_carry_scope_and_mounts() {
    let port = ScopedSkillManagementPort::new("list-owner".to_string());
    let mounts = || Ok(MountView { mounts: Vec::new() });
    let call = port
        .install_for_scope(scope(), mounts(), Some("x"), "body")
        .expect("call");
    assert_eq!(call.context.scope, scope());
    assert_eq!(
        call.operation,
        SkillOperation::Install {
            requested_name: Some("x".to_string()),
            content: "body".to_string(),
            files: Vec::new(),
            source: SkillInstallSource::User,
            source_url: None,
        }
    );
    assert_eq!(port.owner_to_mint_for(), "list-owner");
    let operation = |call: Result<SkillManagementCall, ScopedSkillManagementError>| {
        call.expect("call").operation
    };
    assert_eq!(operation(port.list_for_scope(scope(), mounts())), SkillOperation::List);
    assert_eq!(
        operation(port.search_for_scope(scope(), mounts(), "notes", 7)),
        SkillOperation::Search {
            query: "notes".to_string(),
            limit: 7
        }
    );
    assert_eq!(
        operation(port.read_content_for_scope(scope(), mounts(), "x")),
        SkillOperation::ReadContent {
            name: "x".to_string()
        }
    );
    assert_eq!(
        operation(port.update_for_scope(scope(), mounts(), "x", "new")),
        SkillOperation::Update {
            name: "x".to_string(),
            content: "new".to_string()
        }
    );
    assert_eq!(
        operation(port.remove_for_scope(scope(), mounts(), "x")),
        SkillOperation::Remove {
            name: "x".to_string()
        }
    );
    assert_eq!(
        port.list_for_scope(scope(), Err("bad mount".to_string())),
        Err(ScopedSkillManagementError::InvalidContext {
            reason: "bad mount".to_string()
        })
    );
    let failed: Result<u8, SkillManagementError> =
        Err(failure(SkillManagementErrorKind::InvalidSkill, None));
    assert_eq!(
        port.result_for_scope(Ok(MountView { mounts: Vec::new() }), failed),
        Err(ScopedSkillManagementError::Skill(failure(
            SkillManagementErrorKind::InvalidSkill,
            None
        )))
    );
    assert_eq!(
        port.result_for_scope(Ok(MountView { mounts: Vec::new() }), Ok(4u8)),
        Ok(4)
    );
    assert_eq!(port.owner_scope(Ok(scope())), Ok(scope()));
    assert_eq!(
        invalid_skill_context("x".to_string()).message(""),
        "invalid skill management context: x"
    );
}

fn configured() -> SkillOwner {
    SkillOwner {
        tenant_id: "reborn-cli".to_string(),
        user_id: "reborn-cli".to_string(),
        scope: scope(),
    }
}

fn user(name: &str, valid: bool, skills: SkillsListing) -> UserNode {
    UserNode {
        name: name.to_string(),
        valid,
        scope: scope(),
        skills,
    }
}

fn listed(names: &[&str]) -> SkillsListing {
    SkillsListing::Listed {
        names: names.iter().map(|name| name.to_string()).collect(),
    }
}

fn tenant(name: &str, valid: bool, users: Vec<UserNode>) -> TenantNode {
    TenantNode {
        name: name.to_string(),
        valid,
        users: UsersListing::Listed { users },
    }
}

fn open(inspection: RootInspection, durable: bool, tenants: TenantsListing) -> OpenOutcome {
    open_skill_listing_source(
        &inspection,
        Ok(durable),
        Ok(()),
        Ok(()),
        configured(),
        &tenants,
    )
}

#[test]
fn missing_storage_root_reports_no_source_without_creating_state() {
    assert_eq!(
        open(RootInspection::Missing, true, TenantsListing::Unread),
        OpenOutcome::NoSource
    );
}

#[test]
fn non_directory_storage_root_fails_loudly() {
    match open(RootInspection::NotADirectory, true, TenantsListing::Unread) {
        OpenOutcome::Failed {
            error: RebornBuildError::InvalidConfig { reason },
        } => assert!(reason.contains("not a directory")),
        other => panic!("file storage root must fail: {other:?}"),
    }
    assert_eq!(
        open(
            RootInspection::InspectFailed {
                error: "denied".to_string()
            },
            true,
            TenantsListing::Unread
        ),
        OpenOutcome::Failed {
            error: RebornBuildError::InvalidConfig {
                reason: "local runtime skill storage root could not be inspected: denied"
                    .to_string()
            }
        }
    );
}

#[test]
fn listing_does_not_create_the_durable_store() {
    match open(RootInspection::Directory, false, TenantsListing::Unread) {
        OpenOutcome::Open { source } => {
            assert_eq!(source.owners().len(), 1);
            assert_eq!(source.owners()[0].user_id.as_str(), "reborn-cli");
        }
        other => panic!("unexpected outcome: {other:?}"),
    }
}

#[test]
fn discovers_owners_the_cli_was_never_told_about() {
    let tenants = TenantsListing::Listed {
        tenants: vec![tenant(
            "hosted-tenant",
            true,
            vec![user("alice@corp.example", true, listed(&["deploy-notes"]))],
        )],
    };
    match open(RootInspection::Directory, true, tenants) {
        OpenOutcome::Open { source } => {
            let owners = source.owners();
            assert_eq!(owners[0].user_id.as_str(), "reborn-cli");
            assert!(owners.iter().any(|owner| owner.tenant_id == "hosted-tenant"
                && owner.user_id == "alice@corp.example"));
        }
        other => panic!("unexpected outcome: {other:?}"),
    }
}

#[test]
fn the_walk_reads_only_what_it_needs() {
    assert_eq!(
        discover_skill_owners(&TenantsListing::Unread, configured()),
        WalkOutcome::Read {
            question: WalkQuestion::Tenants
        }
    );
    let tenants = TenantsListing::Listed {
        tenants: vec![
            tenant("not/valid", false, vec![user("x", true, SkillsListing::Unread)]),
            tenant(
                "reborn-cli",
                true,
                vec![
                    user("reborn-cli", true, SkillsListing::Unread),
                    user("bad id", false, SkillsListing::Unread),
                    user("empty", true, listed(&[])),
                    user("bob", true, listed(&["s"])),
                    user("bob", true, SkillsListing::Unread),
                    user("carol", true, SkillsListing::Unread),
                ],
            ),
        ],
    };
    let outcome = discover_skill_owners(&tenants, configured());
    let question = WalkQuestion::Skills {
        tenant: "reborn-cli".to_string(),
        user: "carol".to_string(),
    };
    assert_eq!(question.path(), "/tenants/reborn-cli/users/carol/skills");
    assert_eq!(outcome, WalkOutcome::Read { question });
    let users = WalkQuestion::Users {
        tenant: "t".to_string(),
    };
    assert_eq!(users.path(), "/tenants/t/users");
    let broken = RebornBuildError::Filesystem {
        reason: "io".to_string(),
    };
    assert_eq!(
        discover_skill_owners(
            &TenantsListing::Failed {
                error: broken.clone()
            },
            configured()
        ),
        WalkOutcome::Failed { error: broken }
    );
}

#[test]
fn child_directories_are_told_from_files_and_failures() {
    let entry = |name: &str, is_directory: bool| DirectoryEntry {
        name: name.to_string(),
        is_directory,
    };
    assert_eq!(
        child_directories(DirectoryAnswer::Entries {
            entries: vec![entry("a", true), entry("f", false), entry("b", true)]
        }),
        Ok(vec!["a".to_string(), "b".to_string()])
    );
    assert_eq!(child_directories(DirectoryAnswer::NotFound), Ok(Vec::new()));
    assert_eq!(
        child_directories(DirectoryAnswer::Failed {
            reason: "io".to_string()
        }),
        Err(RebornBuildError::Filesystem {
            reason: "io".to_string()
        })
    );
    assert_eq!(
        child_directories(DirectoryAnswer::InvalidPath {
            reason: "p".to_string()
        }),
        Err(RebornBuildError::Mount {
            reason: "p".to_string()
        })
    );
}

fn filter(tenant: Option<&str>, user: Option<&str>) -> SkillOwnerFilter {
    SkillOwnerFilter {
        tenant: tenant.map(|text| text.to_string()),
        user: user.map(|text| text.to_string()),
    }
}

#[test]
fn filters_match_and_describe_themselves() {
    assert!(filter(None, None).is_empty());
    assert!(!filter(Some("t"), None).is_empty());
    assert!(filter(None, None).matches("a", "b"));
    assert!(filter(Some("a"), None).matches("a", "b"));
    assert!(!filter(Some("a"), Some("c")).matches("a", "b"));
    assert_eq!(filter(Some("a"), Some("b")).describe(), "tenant a / user b");
    assert_eq!(filter(Some("a"), None).describe(), "tenant a");
    assert_eq!(filter(None, Some("b")).describe(), "user b");
    assert_eq!(filter(None, None).describe(), "no filter");
}

fn valid() -> IdentityCheck {
    IdentityCheck {
        tenant: None,
        agent: None,
        owner: None,
    }
}

fn owner_skills(tenant: &str, user: &str, skills: Vec<SkillSummary>) -> OwnerSkills {
    OwnerSkills {
        owner: SkillOwner {
            tenant_id: tenant.to_string(),
            user_id: user.to_string(),
            scope: scope(),
        },
        skills: ListAnswer::Listed { skills },
    }
}

fn groups(filter: &SkillOwnerFilter) -> Vec<SkillGroup> {
    let outcome = collect_skill_groups(
        filter,
        &ListAnswer::Listed {
            skills: bundled().expect("bundled"),
        },
        &valid(),
        &SourceAnswer::Open {
            owners: vec![
                owner_skills("t", "empty", Vec::new()),
                owner_skills("t", "bob", vec![skill("notes", ManagedSkillSource::User)]),
            ],
        },
    );
    match outcome {
        GroupsOutcome::Groups { groups } => groups,
        other => panic!("unexpected outcome: {other:?}"),
    }
}

#[test]
fn bundled_skills_come_first_and_every_owner_has_a_heading() {
    let all = groups(&filter(None, None));
    assert_eq!(all.len(), 3);
    assert!(all[0].owner.is_none());
    assert_eq!(group_heading(&all[0]), "bundled");
    assert_eq!(group_heading(&all[1]), "tenant t / user empty");
    assert!(all[1].skills.is_empty());
    assert_eq!(group_heading(&all[2]), "tenant t / user bob");
    let narrowed = groups(&filter(None, Some("empty")));
    assert_eq!(narrowed.len(), 1);
    assert!(narrowed[0].skills.is_empty());
    assert!(groups(&filter(Some("nobody"), None)).is_empty());
}

#[test]
fn a_fresh_store_is_listed_under_its_own_heading() {
    let outcome = collect_skill_groups(
        &filter(None, None),
        &ListAnswer::Listed {
            skills: bundled().expect("bundled"),
        },
        &valid(),
        &SourceAnswer::Open {
            owners: vec![OwnerSkills {
                owner: configured(),
                skills: ListAnswer::Listed { skills: Vec::new() },
            }],
        },
    );
    let GroupsOutcome::Groups { groups } = outcome else {
        panic!("unexpected outcome: {outcome:?}");
    };
    assert_eq!(groups.len(), 2);
    assert!(groups[0].owner.is_none());
    assert_eq!(group_heading(&groups[1]), "tenant reborn-cli / user reborn-cli");
    assert!(groups[1].skills.is_empty());
}

#[test]
fn collecting_asks_for_one_thing_at_a_time() {
    let open = filter(None, None);
    assert_eq!(
        collect_skill_groups(&open, &ListAnswer::Unasked, &valid(), &SourceAnswer::Unasked),
        GroupsOutcome::AskBundled
    );
    let narrow = filter(Some("t"), None);
    assert_eq!(
        collect_skill_groups(&narrow, &ListAnswer::Unasked, &valid(), &SourceAnswer::Unasked),
        GroupsOutcome::AskSource
    );
    let mut waiting = owner_skills("t", "bob", Vec::new());
    waiting.skills = ListAnswer::Unasked;
    assert_eq!(
        collect_skill_groups(
            &narrow,
            &ListAnswer::Unasked,
            &valid(),
            &SourceAnswer::Open {
                owners: vec![owner_skills("x", "y", Vec::new()), waiting]
            }
        ),
        GroupsOutcome::AskOwner { index: 1 }
    );
    let mut invalid = valid();
    invalid.agent = Some("empty".to_string());
    assert_eq!(
        collect_skill_groups(&narrow, &ListAnswer::Unasked, &invalid, &SourceAnswer::Unasked),
        GroupsOutcome::Failed {
            error: SkillGroupsError::Identity {
                message: "invalid runtime agent identity: empty".to_string()
            }
        }
    );
    assert_eq!(
        collect_skill_groups(&narrow, &ListAnswer::Unasked, &valid(), &SourceAnswer::Missing),
        GroupsOutcome::Groups { groups: Vec::new() }
    );
    let error = RebornBuildError::InvalidConfig {
        reason: "r".to_string(),
    };
    assert_eq!(
        collect_skill_groups(
            &narrow,
            &ListAnswer::Unasked,
            &valid(),
            &SourceAnswer::Failed {
                error: error.clone()
            }
        ),
        GroupsOutcome::Failed {
            error: SkillGroupsError::Open(error)
        }
    );
}

fn config() -> SkillListConfig {
    SkillListConfig {
        owner_id: "reborn-cli".to_string(),
        tenant_id: "reborn-cli".to_string(),
        agent_id: "reborn-cli-agent".to_string(),
        local_dev_root: "/home/x/local-dev".to_string(),
        profile: "local-dev".to_string(),
        composition_profile: RebornCompositionProfile::LocalDev,
    }
}

fn command(verbose: bool, json: bool, tenant: Option<&str>) -> SkillsListCommand {
    SkillsListCommand {
        verbose,
        json,
        tenant: tenant.map(|text| text.to_string()),
        user: None,
    }
}

#[test]
fn text_listing_prints_groups_and_details() {
    let mut notes = skill("no\u{1b}tes", ManagedSkillSource::User);
    notes.version = "1.0".to_string();
    notes.tags = vec!["a".to_string(), String::new(), "b".to_string()];
    let groups = vec![SkillGroup {
        owner: Some(SkillGroupOwner {
            tenant: "t".to_string(),
            user: "bob".to_string(),
        }),
        skills: vec![notes],
    }];
    let report = SkillsCommand::List(command(true, false, None)).execute(&config(), "/home/x", &groups);
    assert_eq!(report.warning, None);
    match report.output {
        SkillsOutput::Text { lines } => assert_eq!(
            lines,
            vec![
                "IronClaw Reborn skills",
                "configured: 1",
                "source: reborn-local-dev",
                "profile: local-dev",
                "reborn_home: /home/x",
                "local_dev_root: /home/x/local-dev",
                "owner_id: reborn-cli",
                "",
                "tenant t / user bob",
                "- no tes (user)",
                "  description: no tes description",
                "  version: 1.0",
                "  tags: a, b",
            ]
        ),
        other => panic!("unexpected output: {other:?}"),
    }
}

#[test]
fn json_listing_names_the_owner_of_each_skill() {
    let all = groups(&filter(None, None));
    let report = command(true, true, None).execute(&config(), "/home/x", &all);
    match report.output {
        SkillsOutput::Json {
            configured,
            rows,
            source,
            details,
        } => {
            assert_eq!(configured, 3);
            assert_eq!(source, "reborn-local-dev");
            assert_eq!(
                details,
                Some(SkillsDetails {
                    profile: "local-dev".to_string(),
                    reborn_home: "/home/x".to_string(),
                    local_dev_root: "/home/x/local-dev".to_string(),
                    owner_id: "reborn-cli".to_string(),
                })
            );
            assert_eq!(rows.len(), 3);
            assert_eq!(rows[0].tenant, None);
            assert_eq!(rows[2].tenant.as_deref(), Some("t"));
            assert_eq!(rows[2].user.as_deref(), Some("bob"));
            assert_eq!(rows[2].skill.name, "notes");
        }
        other => panic!("unexpected output: {other:?}"),
    }
}

#[test]
fn a_short_json_listing_has_no_details() {
    let report = command(false, true, None).execute(&config(), "/home/x", &Vec::new());
    assert_eq!(
        report.output,
        SkillsOutput::Json {
            configured: 0,
            rows: Vec::new(),
            source: "reborn-local-dev".to_string(),
            details: None,
        }
    );
}

#[test]
fn a_filter_that_matches_nothing_is_warned_about() {
    let report = command(false, false, Some("no\nbody")).execute(&config(), "/h", &Vec::new());
    assert_eq!(
        report.warning.as_deref(),
        Some("warning: no skill owner matches tenant no body; run without --tenant/--user to list known owners")
    );
}

#[test]
fn only_local_profiles_list_skills() {
    assert_eq!(check_profile("local-dev"), Ok(()));
    assert_eq!(check_profile("hosted-single-tenant-volume"), Ok(()));
    assert_eq!(
        check_profile("production"),
        Err("ironclaw skills currently supports profile=local-dev, profile=local-dev-yolo, profile=hosted-single-tenant, or profile=hosted-single-tenant-volume; got profile=production".to_string())
    );
}
