use jvmram_bridge::launcher::{start_backend, LaunchError, LaunchEvent, LaunchPlan, LaunchStep};

/// Runs a launch against a host described by plain facts, and records what
/// the host was asked.
fn launch(
    found: Result<&str, &str>,
    dir: Result<&str, &str>,
    existing: &[&str],
    spawn: Result<u32, &str>,
) -> (Result<u32, LaunchError>, Vec<String>) {
    let mut asked = Vec::new();
    let mut event = LaunchEvent::Started;
    loop {
        event = match start_backend(event) {
            LaunchStep::Locate => {
                asked.push("locate".to_string());
                LaunchEvent::Located(found.map(|p| p.to_string()).map_err(|m| m.to_string()))
            }
            LaunchStep::ResolveResourceDir { java } => {
                asked.push("resource dir".to_string());
                let dir = dir.map(|p| p.to_string()).map_err(|m| m.to_string());
                LaunchEvent::ResourceDirResolved { java, dir }
            }
            LaunchStep::CheckResource { java, jar } => {
                asked.push(format!("exists {}", jar));
                let exists = existing.contains(&jar.as_str());
                LaunchEvent::ResourceChecked { java, jar, exists }
            }
            LaunchStep::Spawn(plan) => {
                asked.push(format!("spawn {} {}", plan.program, plan.args.join(" ")));
                assert!(plan.own_process_group);
                LaunchEvent::Spawned(spawn.map_err(|m| m.to_string()))
            }
            LaunchStep::Launched(process) => return (Ok(process), asked),
            LaunchStep::Failed(error) => return (Err(error), asked),
        };
    }
}

#[test]
fn launch_begins_with_the_search() {
    assert_eq!(start_backend::<u32>(LaunchEvent::Started), LaunchStep::Locate);
}

#[test]
fn located_runtime_leads_to_the_resource_dir() {
    assert_eq!(
        start_backend::<u32>(LaunchEvent::Located(Ok("java".to_string()))),
        LaunchStep::ResolveResourceDir { java: "java".to_string() }
    );
}

#[test]
fn missing_runtime_fails_with_the_locator_message() {
    assert_eq!(
        start_backend::<u32>(LaunchEvent::Located(Err("no java here".to_string()))),
        LaunchStep::Failed(LaunchError::JavaNotFound("no java here".to_string()))
    );
}

#[test]
fn resource_dir_names_the_archive() {
    for dir in ["/usr/lib/app", "/usr/lib/app/"] {
        assert_eq!(
            start_backend::<u32>(LaunchEvent::ResourceDirResolved {
                java: "java".to_string(),
                dir: Ok(dir.to_string())
            }),
            LaunchStep::CheckResource {
                java: "java".to_string(),
                jar: "/usr/lib/app/jvm-ram-cost.jar".to_string()
            }
        );
    }
}

#[test]
fn unknown_resource_dir_fails() {
    assert_eq!(
        start_backend::<u32>(LaunchEvent::ResourceDirResolved {
            java: "java".to_string(),
            dir: Err("unknown path".to_string())
        }),
        LaunchStep::Failed(LaunchError::ResourceDirUnavailable("unknown path".to_string()))
    );
}

#[test]
fn existing_archive_is_run_with_jar_flag_in_own_group() {
    assert_eq!(
        start_backend::<u32>(LaunchEvent::ResourceChecked {
            java: "/opt/jdk/bin/java".to_string(),
            jar: "/res/jvm-ram-cost.jar".to_string(),
            exists: true
        }),
        LaunchStep::Spawn(LaunchPlan {
            program: "/opt/jdk/bin/java".to_string(),
            args: vec!["-jar".to_string(), "/res/jvm-ram-cost.jar".to_string()],
            own_process_group: true,
        })
    );
}

#[test]
fn missing_archive_fails_before_any_spawn() {
    assert_eq!(
        start_backend::<u32>(LaunchEvent::ResourceChecked {
            java: "java".to_string(),
            jar: "/res/jvm-ram-cost.jar".to_string(),
            exists: false
        }),
        LaunchStep::Failed(LaunchError::ResourceMissing("/res/jvm-ram-cost.jar".to_string()))
    );
}

#[test]
fn spawned_process_ends_the_launch() {
    assert_eq!(start_backend(LaunchEvent::Spawned(Ok(4242u32))), LaunchStep::Launched(4242u32));
}

#[test]
fn failed_spawn_fails_the_launch_with_its_reason() {
    assert_eq!(
        start_backend::<u32>(LaunchEvent::Spawned(Err(
            "Permission denied (os error 13)".to_string()
        ))),
        LaunchStep::Failed(LaunchError::SpawnFailed("Permission denied (os error 13)".to_string()))
    );
}

#[test]
fn launch_succeeds_when_everything_is_there() {
    let (launched, asked) = launch(Ok("java"), Ok("/res"), &["/res/jvm-ram-cost.jar"], Ok(77));
    assert_eq!(launched, Ok(77));
    assert_eq!(
        asked,
        vec![
            "locate".to_string(),
            "resource dir".to_string(),
            "exists /res/jvm-ram-cost.jar".to_string(),
            "spawn java -jar /res/jvm-ram-cost.jar".to_string()
        ]
    );
}

#[test]
fn launch_stops_at_the_first_failure() {
    let (no_java, asked) = launch(Err("none"), Ok("/res"), &["/res/jvm-ram-cost.jar"], Ok(1));
    assert_eq!(no_java, Err(LaunchError::JavaNotFound("none".to_string())));
    assert_eq!(asked, vec!["locate".to_string()]);
    let (no_dir, asked) = launch(Ok("java"), Err("unknown path"), &[], Ok(1));
    assert_eq!(no_dir, Err(LaunchError::ResourceDirUnavailable("unknown path".to_string())));
    assert_eq!(asked, vec!["locate".to_string(), "resource dir".to_string()]);
    let (no_jar, asked) = launch(Ok("java"), Ok("/res"), &[], Ok(1));
    assert_eq!(no_jar, Err(LaunchError::ResourceMissing("/res/jvm-ram-cost.jar".to_string())));
    assert_eq!(asked.len(), 3);
    let (no_process, asked) =
        launch(Ok("java"), Ok("/res"), &["/res/jvm-ram-cost.jar"], Err("denied"));
    assert_eq!(no_process, Err(LaunchError::SpawnFailed("denied".to_string())));
    assert_eq!(asked.len(), 4);
}

#[test]
fn message_of_missing_runtime_is_the_locator_message() {
    let error = LaunchError::JavaNotFound("Java не найдена".to_string());
    assert_eq!(error.message(), "Java не найдена");
}

#[test]
fn message_of_unknown_resource_dir() {
    let error = LaunchError::ResourceDirUnavailable("unknown path".to_string());
    assert_eq!(error.message(), "Не удалось получить путь к ресурсам: unknown path");
}

#[test]
fn message_of_missing_archive_quotes_the_path() {
    let error = LaunchError::ResourceMissing("/res/jvm-ram-cost.jar".to_string());
    assert_eq!(error.message(), "JAR файл не найден: \"/res/jvm-ram-cost.jar\"");
}

#[test]
fn message_of_missing_archive_escapes_what_needs_it() {
    let error = LaunchError::ResourceMissing("/my \"res\"/a\\b.jar".to_string());
    assert_eq!(error.message(), "JAR файл не найден: \"/my \\\"res\\\"/a\\\\b.jar\"");
    let expected =
        format!("JAR файл не найден: {:?}", std::path::PathBuf::from("/my \"res\"/a\\b.jar"));
    assert_eq!(error.message(), expected);
}

#[test]
fn message_of_failed_spawn() {
    let error = LaunchError::SpawnFailed("No such file or directory (os error 2)".to_string());
    assert_eq!(
        error.message(),
        "Не удалось запустить бэкенд: No such file or directory (os error 2)"
    );
}

#[test]
fn message_with_takes_the_quoted_path_as_given() {
    let missing = LaunchError::ResourceMissing("/res/a.jar".to_string());
    assert_eq!(missing.message_with("<quoted>"), "JAR файл не найден: <quoted>");
    let spawn = LaunchError::SpawnFailed("denied".to_string());
    assert_eq!(spawn.message_with("<quoted>"), "Не удалось запустить бэкенд: denied");
}
