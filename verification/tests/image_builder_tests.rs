use kawakaze_backend::image::{DockerfileInstruction, Image, ImageConfig, ImageState};
use kawakaze_backend::image_builder::{
    apply_instruction, apply_instructions, describe, finish_build, instruction_from,
    parse_from_instruction, run_fallback_script, ActionKind, BuildAction, BuildStatus,
    ClosingStep, DatasetSetup, ImageBuilder, ImageError,
};
use kawakaze_backend::strmap::StringMap;

fn create_test_builder() -> ImageBuilder {
    ImageBuilder::new("tank/test".to_string())
}

fn map(pairs: &[(&str, &str)]) -> StringMap {
    let mut m = StringMap::new();
    for (k, v) in pairs {
        m.insert(k.to_string(), v.to_string());
    }
    m
}

#[test]
fn test_substitute_build_args() {
    let mut build_args = StringMap::new();
    build_args.insert("VERSION".to_string(), "1.0.0".to_string());
    build_args.insert("DEBUG".to_string(), "true".to_string());

    let builder = create_test_builder().with_build_args(build_args);

    let line = "RUN apt-get install myapp-${VERSION}";
    let result = builder.substitute_build_args(line);
    assert_eq!(result, "RUN apt-get install myapp-1.0.0");

    let line2 = "ENV DEBUG=${DEBUG}";
    let result2 = builder.substitute_build_args(line2);
    assert_eq!(result2, "ENV DEBUG=true");
}

#[test]
fn substitution_order_and_plain_form() {
    let builder = create_test_builder().with_build_args(map(&[("A", "x"), ("AB", "y")]));
    // Arguments are filled in one after the other: `$A` inside `$AB` goes first.
    assert_eq!(builder.substitute_build_args("$AB ${AB} $A ${A} $"), "xB y x x $");
    let builder = create_test_builder().with_build_args(map(&[("V", "$V$V")]));
    assert_eq!(builder.substitute_build_args("a$Vb"), "a$V$Vb");
    let builder = create_test_builder();
    assert_eq!(builder.substitute_build_args("RUN echo $HOME"), "RUN echo $HOME");
    let builder = create_test_builder().with_build_args(map(&[("", "z")]));
    assert_eq!(builder.substitute_build_args("a${}b$c"), "azbzc");
}

#[test]
fn test_parse_from() {
    let builder = create_test_builder();
    let instr = builder.parse_instruction("FROM ubuntu:22.04").unwrap();
    assert!(matches!(instr, DockerfileInstruction::From(_)));
}

#[test]
fn test_parse_run() {
    let builder = create_test_builder();
    let instr = builder.parse_instruction("RUN apt-get update").unwrap();
    assert!(matches!(instr, DockerfileInstruction::Run(_)));
}

#[test]
fn test_parse_copy() {
    let builder = create_test_builder();
    let instr = builder.parse_instruction("COPY . /app").unwrap();
    match instr {
        DockerfileInstruction::Copy { src, dest, .. } => {
            assert_eq!(src, ".");
            assert_eq!(dest, "/app");
        }
        _ => panic!("Expected Copy instruction"),
    }
}

#[test]
fn test_parse_expose() {
    let builder = create_test_builder();
    let instr = builder.parse_instruction("EXPOSE 8080 8443").unwrap();
    match instr {
        DockerfileInstruction::Expose(ports) => {
            assert_eq!(ports, vec![8080, 8443]);
        }
        _ => panic!("Expected Expose instruction"),
    }
}

#[test]
fn test_parse_workdir() {
    let builder = create_test_builder();
    let instr = builder.parse_instruction("WORKDIR /app").unwrap();
    match instr {
        DockerfileInstruction::WorkDir(path) => {
            assert_eq!(path, "/app");
        }
        _ => panic!("Expected WorkDir instruction"),
    }
}

#[test]
fn test_parse_user() {
    let builder = create_test_builder();
    let instr = builder.parse_instruction("USER appuser").unwrap();
    match instr {
        DockerfileInstruction::User(user) => {
            assert_eq!(user, "appuser");
        }
        _ => panic!("Expected User instruction"),
    }
}

#[test]
fn test_parse_volume() {
    let builder = create_test_builder();
    let instr = builder.parse_instruction("VOLUME /data /logs").unwrap();
    match instr {
        DockerfileInstruction::Volume(vols) => {
            assert_eq!(vols, vec!["/data".to_string(), "/logs".to_string()]);
        }
        _ => panic!("Expected Volume instruction"),
    }
}

#[test]
fn test_parse_cmd_exec() {
    let builder = create_test_builder();
    let instr = builder.parse_instruction("CMD [\"/bin/app\", \"--help\"]").unwrap();
    match instr {
        DockerfileInstruction::Cmd(cmd) => {
            assert_eq!(cmd, vec!["/bin/app".to_string(), "--help".to_string()]);
        }
        _ => panic!("Expected Cmd instruction"),
    }
}

#[test]
fn test_parse_cmd_shell() {
    let builder = create_test_builder();
    let instr = builder.parse_instruction("CMD /bin/app --help").unwrap();
    match instr {
        DockerfileInstruction::Cmd(cmd) => {
            assert_eq!(cmd, vec!["/bin/app --help".to_string()]);
        }
        _ => panic!("Expected Cmd instruction"),
    }
}

#[test]
fn test_parse_entrypoint() {
    let builder = create_test_builder();
    let instr = builder.parse_instruction("ENTRYPOINT [\"/bin/sh\"]").unwrap();
    match instr {
        DockerfileInstruction::Entrypoint(ep) => {
            assert_eq!(ep, vec!["/bin/sh".to_string()]);
        }
        _ => panic!("Expected Entrypoint instruction"),
    }
}

#[test]
fn test_parse_dockerfile() {
    let builder = create_test_builder();
    let dockerfile = r#"
            FROM ubuntu:22.04
            RUN apt-get update
            COPY . /app
            ENV DEBUG=true
            EXPOSE 8080
        "#;

    let instructions = builder.parse_dockerfile(dockerfile).unwrap();
    assert_eq!(instructions.len(), 5);
    assert!(matches!(instructions[0], DockerfileInstruction::From(_)));
    assert!(matches!(instructions[1], DockerfileInstruction::Run(_)));
    assert!(matches!(instructions[2], DockerfileInstruction::Copy { .. }));
    assert!(matches!(instructions[3], DockerfileInstruction::Env(_)));
    assert!(matches!(instructions[4], DockerfileInstruction::Expose(_)));
}

#[test]
fn test_parse_dockerfile_no_from() {
    let builder = create_test_builder();
    let dockerfile = r#"
            RUN apt-get update
            COPY . /app
        "#;

    let result = builder.parse_dockerfile(dockerfile);
    assert!(result.is_err());
}

#[test]
fn test_parse_dockerfile_with_comments() {
    let builder = create_test_builder();
    let dockerfile = r#"
            # This is a comment
            FROM ubuntu:22.04

            # Another comment
            RUN apt-get update
        "#;

    let instructions = builder.parse_dockerfile(dockerfile).unwrap();
    assert_eq!(instructions.len(), 2);
}

#[test]
fn env_and_label_pair_up_words() {
    let builder = create_test_builder();
    assert_eq!(
        builder.parse_instruction("ENV PATH /usr/bin DEBUG true LONELY").unwrap(),
        DockerfileInstruction::Env(map(&[("PATH", "/usr/bin"), ("DEBUG", "true")]))
    );
    assert_eq!(
        builder.parse_instruction("ENV A 1 A 2").unwrap(),
        DockerfileInstruction::Env(map(&[("A", "2")]))
    );
    assert_eq!(builder.parse_instruction("ENV").unwrap(), DockerfileInstruction::Env(StringMap::new()));
    assert_eq!(
        builder.parse_instruction("LABEL version 1.0 maintainer test@example.com").unwrap(),
        DockerfileInstruction::Label(map(&[("maintainer", "test@example.com"), ("version", "1.0")]))
    );
    assert_eq!(
        builder.parse_instruction("label one").unwrap(),
        DockerfileInstruction::Label(StringMap::new())
    );
}

#[test]
fn every_keyword() {
    let b = create_test_builder();
    assert_eq!(b.parse_instruction("from   base:1  ").unwrap(), DockerfileInstruction::From("base:1".into()));
    assert_eq!(b.parse_instruction("FROM").unwrap(), DockerfileInstruction::From("".into()));
    assert_eq!(
        b.parse_instruction("BOOTSTRAP").unwrap(),
        DockerfileInstruction::Bootstrap { version: None, architecture: None, mirror: None }
    );
    assert_eq!(
        b.parse_instruction("Bootstrap 15.0-RELEASE amd64 https://m.example extra").unwrap(),
        DockerfileInstruction::Bootstrap {
            version: Some("15.0-RELEASE".into()),
            architecture: Some("amd64".into()),
            mirror: Some("https://m.example".into()),
        }
    );
    assert_eq!(
        b.parse_instruction("bootstrap 14.2-RELEASE").unwrap(),
        DockerfileInstruction::Bootstrap { version: Some("14.2-RELEASE".into()), architecture: None, mirror: None }
    );
    assert_eq!(b.parse_instruction("RUN  echo  hi ").unwrap(), DockerfileInstruction::Run("echo  hi".into()));
    assert_eq!(
        b.parse_instruction("COPY a b c /dst").unwrap(),
        DockerfileInstruction::Copy { from: None, src: "a".into(), dest: "/dst".into() }
    );
    assert_eq!(
        b.parse_instruction("ADD https://x/y.tar /opt").unwrap(),
        DockerfileInstruction::Add { src: "https://x/y.tar".into(), dest: "/opt".into() }
    );
    assert_eq!(b.parse_instruction("EXPOSE").unwrap(), DockerfileInstruction::Expose(vec![]));
    assert_eq!(b.parse_instruction("EXPOSE +80 0 65535").unwrap(), DockerfileInstruction::Expose(vec![80, 0, 65535]));
    assert_eq!(b.parse_instruction("VOLUME").unwrap(), DockerfileInstruction::Volume(vec![]));
    assert_eq!(b.parse_instruction("CMD").unwrap(), DockerfileInstruction::Cmd(vec!["".into()]));
    assert_eq!(b.parse_instruction("CMD []").unwrap(), DockerfileInstruction::Cmd(vec![]));
    assert_eq!(
        b.parse_instruction("ENTRYPOINT /bin/sh -c").unwrap(),
        DockerfileInstruction::Entrypoint(vec!["/bin/sh -c".into()])
    );
    assert_eq!(
        b.parse_instruction("ARG VERSION=1").unwrap(),
        DockerfileInstruction::Run("# ARG VERSION=1".into())
    );
    assert_eq!(
        b.parse_instruction("STOPSIGNAL SIGTERM").unwrap(),
        DockerfileInstruction::Label(map(&[("stop_signal", "SIGTERM")]))
    );
    assert_eq!(
        b.parse_instruction("SHELL [\"/bin/sh\", \"-c\"]").unwrap(),
        DockerfileInstruction::Label(map(&[("shell", "/bin/sh -c")]))
    );
    assert_eq!(
        b.parse_instruction("SHELL /bin/csh").unwrap(),
        DockerfileInstruction::Label(map(&[("shell", "/bin/csh")]))
    );
}

#[test]
fn every_parse_error() {
    let b = create_test_builder();
    let err = |line: &str| match b.parse_instruction(line) {
        Err(ImageError::ParseError(m)) => m,
        other => panic!("{:?}", other),
    };
    assert_eq!(err("COPY onlyone"), "COPY requires source and destination");
    assert_eq!(err("COPY"), "COPY requires source and destination");
    assert_eq!(err("ADD x"), "ADD requires source and destination");
    assert_eq!(err("EXPOSE 80 http 99999"), "Invalid port: http");
    assert_eq!(err("EXPOSE 65536"), "Invalid port: 65536");
    assert_eq!(err("EXPOSE -1"), "Invalid port: -1");
    assert_eq!(err("CMD [\"a\", 1]"), "Invalid CMD syntax");
    assert_eq!(err("CMD [unterminated"), "Invalid CMD syntax");
    assert_eq!(err("ENTRYPOINT [\"a\"] trailing"), "Invalid ENTRYPOINT syntax");
    assert_eq!(err("SHELL [1]"), "Invalid SHELL syntax");
    assert_eq!(err("HEALTHCHECK none"), "Unknown instruction: HEALTHCHECK");
    assert_eq!(err("run\techo"), "Unknown instruction: RUN\tECHO");
    assert_eq!(err(""), "Unknown instruction: ");
}

#[test]
fn instruction_from_takes_the_list_as_given() {
    let list = Some(vec!["a".to_string(), "b c".to_string()]);
    assert_eq!(
        instruction_from("CMD", "[whatever", list).unwrap(),
        DockerfileInstruction::Cmd(vec!["a".into(), "b c".into()])
    );
    assert_eq!(
        instruction_from("CMD", "[\"a\"]", None),
        Err(ImageError::ParseError("Invalid CMD syntax".into()))
    );
    // Without array form the list is not looked at.
    assert_eq!(
        instruction_from("CMD", "plain", Some(vec!["x".into()])).unwrap(),
        DockerfileInstruction::Cmd(vec!["plain".into()])
    );
    assert_eq!(
        instruction_from("RUN", "[x", Some(vec!["x".into()])).unwrap(),
        DockerfileInstruction::Run("[x".into())
    );
    assert_eq!(
        instruction_from("SHELL", "[x", Some(vec!["a".into(), "b".into(), "c".into()])).unwrap(),
        DockerfileInstruction::Label(map(&[("shell", "a b c")]))
    );
    // The keyword is expected in capitals.
    assert_eq!(
        instruction_from("run", "x", None),
        Err(ImageError::ParseError("Unknown instruction: run".into()))
    );
}

#[test]
fn dockerfile_rules() {
    let b = create_test_builder();
    assert_eq!(b.parse_dockerfile("").unwrap().len(), 0);
    assert_eq!(b.parse_dockerfile("# only a comment\n\n   \n").unwrap().len(), 0);
    // FROM scratch is left out of the chain.
    assert_eq!(b.parse_dockerfile("FROM scratch").unwrap().len(), 0);
    assert_eq!(
        b.parse_dockerfile("FROM scratch\nRUN echo hi").unwrap(),
        vec![DockerfileInstruction::Run("echo hi".into())]
    );
    assert_eq!(
        b.parse_dockerfile("from Scratch\r\nRUN echo hi\r\n").unwrap(),
        vec![DockerfileInstruction::From("Scratch".into()), DockerfileInstruction::Run("echo hi".into())]
    );
    assert_eq!(
        b.parse_dockerfile("RUN echo hi"),
        Err(ImageError::ParseError("Dockerfile must start with FROM instruction".into()))
    );
    assert_eq!(
        b.parse_dockerfile("\n# c\nFROM a\n\nBOGUS x\nCOPY y"),
        Err(ImageError::ParseError("Line 5: Parse error: Unknown instruction: BOGUS".into()))
    );
    assert_eq!(
        b.parse_dockerfile("COPY y\nFROM a"),
        Err(ImageError::ParseError("Line 1: Parse error: COPY requires source and destination".into()))
    );
    // A line that ends in a backslash is an instruction like any other.
    assert_eq!(
        b.parse_dockerfile("FROM a\nRUN one \\\nRUN two").unwrap(),
        vec![
            DockerfileInstruction::From("a".into()),
            DockerfileInstruction::Run("one".into()),
            DockerfileInstruction::Run("two".into()),
        ]
    );
    let with_args = create_test_builder().with_build_args(map(&[("BASE", "freebsd:15")]));
    assert_eq!(
        with_args.parse_dockerfile("FROM ${BASE}").unwrap(),
        vec![DockerfileInstruction::From("freebsd:15".into())]
    );
}

#[test]
fn base_image_of_a_dockerfile() {
    assert_eq!(parse_from_instruction("FROM freebsd:15.0\nRUN x"), Ok("freebsd:15.0".to_string()));
    assert_eq!(parse_from_instruction("\n# c\n  from   scratch   as base\n"), Ok("scratch".to_string()));
    assert_eq!(parse_from_instruction("RUN x\nFROM a"), Err("No FROM instruction found"));
    assert_eq!(parse_from_instruction(""), Err("No FROM instruction found"));
    assert_eq!(parse_from_instruction("FROM\nFROM b"), Ok("b".to_string()));
    assert_eq!(parse_from_instruction("FROMAGE x\nFROM c"), Ok("c".to_string()));
    assert_eq!(parse_from_instruction("FROM\tx"), Err("No FROM instruction found"));
}

#[test]
fn instructions_change_the_configuration() {
    let b = create_test_builder();
    let text = "FROM scratch\nWORKDIR /app\nENV A 1 B 2\nENV B 3\nEXPOSE 80\nEXPOSE 443 8080\nUSER www\nVOLUME /data\nVOLUME /logs /tmp\nCMD [\"a\"]\nCMD b\nENTRYPOINT e\nLABEL k v\nSTOPSIGNAL SIGINT\nRUN x\nCOPY a b";
    let chain = b.parse_dockerfile(text).unwrap();
    let mut config = ImageConfig::default();
    apply_instructions(&mut config, &chain);
    assert_eq!(config.workdir, Some("/app".to_string()));
    assert_eq!(config.env, map(&[("A", "1"), ("B", "3")]));
    assert_eq!(config.exposed_ports, vec![80, 443, 8080]);
    assert_eq!(config.user, Some("www".to_string()));
    assert_eq!(config.volumes, vec!["/data", "/logs", "/tmp"]);
    assert_eq!(config.cmd, Some(vec!["b".to_string()]));
    assert_eq!(config.entrypoint, Some(vec!["e".to_string()]));
    assert_eq!(config.labels, map(&[("k", "v"), ("stop_signal", "SIGINT")]));
    let before = config.clone();
    apply_instruction(&mut config, &DockerfileInstruction::Run("y".into()));
    apply_instruction(&mut config, &DockerfileInstruction::From("z".into()));
    assert_eq!(config, before);
}

#[test]
fn instructions_described() {
    let d = |i: DockerfileInstruction| describe(&i);
    assert_eq!(d(DockerfileInstruction::From("a".into())), "FROM a");
    assert_eq!(
        d(DockerfileInstruction::Bootstrap { version: None, architecture: Some("amd64".into()), mirror: None }),
        "BOOTSTRAP auto amd64"
    );
    assert_eq!(d(DockerfileInstruction::Run("echo hi".into())), "RUN echo hi");
    assert_eq!(d(DockerfileInstruction::Copy { from: None, src: "a".into(), dest: "b".into() }), "COPY a b");
    assert_eq!(d(DockerfileInstruction::Add { src: "a".into(), dest: "b".into() }), "ADD a b");
    assert_eq!(d(DockerfileInstruction::WorkDir("/w".into())), "WORKDIR /w");
    assert_eq!(d(DockerfileInstruction::Env(map(&[("a", "b"), ("c", "d")]))), "ENV 2 vars");
    assert_eq!(d(DockerfileInstruction::Expose(vec![80, 443])), "EXPOSE [80, 443]");
    assert_eq!(d(DockerfileInstruction::Expose(vec![])), "EXPOSE []");
    assert_eq!(d(DockerfileInstruction::User("u".into())), "USER u");
    assert_eq!(d(DockerfileInstruction::Volume(vec!["/a".into(), "b\"c".into()])), "VOLUME [\"/a\", \"b\\\"c\"]");
    assert_eq!(d(DockerfileInstruction::Cmd(vec![])), "CMD []");
    assert_eq!(d(DockerfileInstruction::Entrypoint(vec!["/bin/sh".into()])), "ENTRYPOINT [\"/bin/sh\"]");
    assert_eq!(d(DockerfileInstruction::Label(StringMap::new())), "LABEL 0 entries");
}

fn action(kind: ActionKind, target: &str, detail: &str) -> BuildAction {
    BuildAction { kind, target: target.to_string(), detail: detail.to_string() }
}

#[test]
fn instructions_ask_work_of_the_host() {
    let b = create_test_builder().with_build_context("/ctx".to_string());
    let run = |i: DockerfileInstruction| {
        let mut config = ImageConfig::default();
        b.execute_instruction("/build", &i, &mut config)
    };
    assert_eq!(run(DockerfileInstruction::From("a".into())), vec![]);
    assert_eq!(
        run(DockerfileInstruction::Bootstrap { version: None, architecture: None, mirror: None }),
        vec![action(ActionKind::Bootstrap, "/build", "")]
    );
    assert_eq!(run(DockerfileInstruction::Run("make".into())), vec![action(ActionKind::Run, "/build", "make")]);
    assert_eq!(
        run(DockerfileInstruction::Copy { from: None, src: "src".into(), dest: "//opt/app".into() }),
        vec![action(ActionKind::Copy, "/build/opt/app", "/ctx/src")]
    );
    assert_eq!(
        run(DockerfileInstruction::Add { src: "https://e.org/f".into(), dest: "/f".into() }),
        vec![action(ActionKind::Download, "/build/f", "https://e.org/f")]
    );
    assert_eq!(
        run(DockerfileInstruction::Add { src: "http://e.org/f".into(), dest: "f".into() }),
        vec![action(ActionKind::Download, "/build/f", "http://e.org/f")]
    );
    assert_eq!(
        run(DockerfileInstruction::Add { src: "ftp.tar".into(), dest: "/f".into() }),
        vec![action(ActionKind::Copy, "/build/f", "/ctx/ftp.tar")]
    );
    assert_eq!(
        run(DockerfileInstruction::WorkDir("/srv/www".into())),
        vec![action(ActionKind::MakeDir, "/build/srv/www", "")]
    );
    assert_eq!(
        run(DockerfileInstruction::Env(map(&[("A", "1"), ("B", "two words")]))),
        vec![action(
            ActionKind::AppendFile,
            "/build/etc/profile.kawakaze",
            "export A=\"1\"\nexport B=\"two words\"\n"
        )]
    );
    assert_eq!(
        run(DockerfileInstruction::Volume(vec!["/data".into(), "logs".into()])),
        vec![action(ActionKind::MakeDir, "/build/data", ""), action(ActionKind::MakeDir, "/build/logs", "")]
    );
    assert_eq!(run(DockerfileInstruction::User("u".into())), vec![]);
    assert_eq!(
        run_fallback_script("/build", "echo hi"),
        ("/build/tmp/kawakaze-build.sh".to_string(), "#!/bin/sh\necho hi\n".to_string())
    );
}

fn base_image() -> Image {
    let mut config = ImageConfig::default();
    config.env.insert("BASE".to_string(), "yes".to_string());
    config.user = Some("root".to_string());
    Image::new("base".to_string(), vec![])
        .with_snapshot("tank/test/base@base-1".to_string())
        .with_config(config)
        .with_state(ImageState::Available)
}

#[test]
fn build_plan_from_scratch() {
    let b = create_test_builder();
    let plan = b.build("web/app".to_string(), "FROM scratch\nRUN echo hi\nENV A 1", None).unwrap();
    assert_eq!(plan.name, "web/app");
    assert_eq!(plan.build_dataset, "tank/test/build-web/app");
    assert_eq!(plan.mountpoint, "/var/db/kawakaze/builds/web-app");
    assert_eq!(plan.setup, DatasetSetup::Create);
    assert_eq!(plan.parent_id, None);
    assert_eq!(plan.final_dataset, "tank/test/web-app");
    assert!(plan.snapshot_name.starts_with("web-app-"));
    assert_eq!(plan.snapshot_name.len(), "web-app-".len() + 36);
    assert_eq!(plan.final_snapshot, format!("tank/test/web-app@{}", plan.snapshot_name));
    assert_eq!(plan.instructions.len(), 2);
    assert_eq!(plan.steps.len(), 2);
    assert_eq!(plan.steps[0].progress.image_id, "web/app");
    assert_eq!((plan.steps[0].progress.step, plan.steps[0].progress.total_steps), (0, 2));
    assert_eq!(plan.steps[0].progress.current_instruction, "RUN echo hi");
    assert_eq!(plan.steps[0].progress.status, BuildStatus::Building);
    assert_eq!(plan.steps[0].actions, vec![action(ActionKind::Run, "/var/db/kawakaze/builds/web-app", "echo hi")]);
    assert_eq!(plan.steps[1].progress.step, 1);
    assert_eq!(plan.config.env, map(&[("A", "1")]));

    let (image, progress) = finish_build(plan, Some(4096));
    assert_eq!(image.name, "web/app");
    assert_eq!(image.parent_id, None);
    assert_eq!(image.state, ImageState::Available);
    assert_eq!(image.size_bytes, 4096);
    assert!(image.snapshot.starts_with("tank/test/web-app@web-app-"));
    assert_eq!(image.dockerfile.len(), 2);
    assert_eq!(progress.image_id, image.id);
    assert_eq!((progress.step, progress.total_steps), (2, 2));
    assert_eq!(progress.current_instruction, "RUN complete");
    assert_eq!(progress.status, BuildStatus::Complete);
}

#[test]
fn from_scratch_alone_gives_an_empty_image() {
    let b = create_test_builder();
    let plan = b.build("empty".to_string(), "FROM scratch", None).unwrap();
    assert!(plan.instructions.is_empty());
    assert!(plan.steps.is_empty());
    let (image, _) = finish_build(plan, None);
    assert!(image.dockerfile.is_empty());
    assert_eq!(image.parent_id, None);
    assert_eq!(image.size_bytes, 0);
    assert_eq!(image.config, ImageConfig::default());
}

#[test]
fn build_plan_upon_a_base_image() {
    let b = create_test_builder();
    let base = base_image();
    let plan = b.build("app".to_string(), "FROM base\nUSER www", Some(&base)).unwrap();
    assert_eq!(plan.setup, DatasetSetup::CloneFrom("tank/test/base@base-1".to_string()));
    assert_eq!(plan.parent_id, Some(base.id.clone()));
    assert_eq!(plan.config.env, map(&[("BASE", "yes")]));
    assert_eq!(plan.config.user, Some("www".to_string()));
    assert_eq!(plan.instructions.len(), 2);
    let (image, _) = finish_build(plan, Some(1));
    assert_eq!(image.parent_id, Some(base.id.clone()));

    let broken = Image::new("b".to_string(), vec![]).with_snapshot("no-at-sign".to_string());
    assert_eq!(
        b.build("app".to_string(), "FROM b", Some(&broken)),
        Err(ImageError::Zfs("Invalid snapshot format: no-at-sign".into()))
    );
    let broken = Image::new("b".to_string(), vec![]).with_snapshot("a@b@c".to_string());
    assert!(matches!(b.build("app".to_string(), "FROM b", Some(&broken)), Err(ImageError::Zfs(_))));
    assert_eq!(
        b.build("app".to_string(), "RUN x", Some(&base)),
        Err(ImageError::ParseError("Dockerfile must start with FROM instruction".into()))
    );
}

#[test]
fn two_builds_agree() {
    let text = "FROM base\nENV A 1\nCMD [\"x\", \"y\"]\nEXPOSE 80";
    let base = base_image();
    let first = create_test_builder().build("app".to_string(), text, Some(&base)).unwrap();
    let second = create_test_builder().build("app".to_string(), text, Some(&base)).unwrap();
    assert_ne!(first.snapshot_name, second.snapshot_name);
    let (a, _) = finish_build(first, Some(1));
    let (b, _) = finish_build(second, Some(2));
    assert_eq!(a.dockerfile, b.dockerfile);
    assert_eq!(a.config, b.config);
    assert_ne!(a.id, b.id);
    assert_ne!(a.snapshot, b.snapshot);
}

#[test]
fn image_error_texts() {
    assert_eq!(ImageError::ParseError("x".into()).to_string(), "Parse error: x");
    assert_eq!(ImageError::Io("x".into()).to_string(), "IO error: x");
    assert_eq!(ImageError::Zfs("x".into()).to_string(), "ZFS error: x");
    assert_eq!(ImageError::BuildFailed("x".into()).to_string(), "Build failed: x");
    let b = create_test_builder();
    let (id, instr) = ("img", DockerfileInstruction::Run("x".into()));
    let p = b.report_progress(id, 3, 7, &instr, BuildStatus::Failed);
    assert_eq!((p.image_id.as_str(), p.step, p.total_steps, p.status), ("img", 3, 7, BuildStatus::Failed));
}

#[test]
fn arg_lines_are_not_stored() {
    let b = create_test_builder();
    assert_eq!(b.parse_dockerfile("FROM scratch\nARG V=1").unwrap(), vec![]);
    assert_eq!(
        b.parse_dockerfile("FROM base\nARG V=1\nRUN make\narg W\nRUN install").unwrap(),
        vec![
            DockerfileInstruction::From("base".into()),
            DockerfileInstruction::Run("make".into()),
            DockerfileInstruction::Run("install".into()),
        ]
    );
    // An ARG line is still no FROM.
    assert_eq!(
        b.parse_dockerfile("ARG V=1\nFROM base"),
        Err(ImageError::ParseError("Dockerfile must start with FROM instruction".into()))
    );
    assert_eq!(
        b.parse_dockerfile("ARG V=1"),
        Err(ImageError::ParseError("Dockerfile must start with FROM instruction".into()))
    );
    assert_eq!(b.keyword("arg V=1"), "ARG");
    assert_eq!(b.keyword("From a"), "FROM");
}

#[test]
fn the_first_instruction_is_from_whatever_its_line_ends_in() {
    let b = create_test_builder();
    assert_eq!(
        b.parse_dockerfile("RUN a \\\nFROM x"),
        Err(ImageError::ParseError("Dockerfile must start with FROM instruction".into()))
    );
    assert_eq!(
        b.parse_dockerfile("# c\n\nENV A=1 \\\nFROM x\nRUN y"),
        Err(ImageError::ParseError("Dockerfile must start with FROM instruction".into()))
    );
    assert_eq!(
        b.parse_dockerfile("FROM x \\\nRUN y").unwrap(),
        vec![DockerfileInstruction::From("x".into()), DockerfileInstruction::Run("y".into())]
    );
    // A line that does not parse is reported before the missing FROM.
    assert_eq!(
        b.parse_dockerfile("BOGUS \\\nFROM x"),
        Err(ImageError::ParseError("Line 1: Parse error: Unknown instruction: BOGUS".into()))
    );
}

#[test]
fn a_build_is_published_in_order() {
    let b = ImageBuilder::for_pool("zroot/kawakaze");
    assert_eq!(b.base_dataset, "zroot/kawakaze/images");
    assert_eq!(b.build_context, ".");
    assert!(b.build_args.is_empty());
    let plan = b.build("my/app".to_string(), "FROM scratch\nRUN echo hi", None).unwrap();
    let build = "zroot/kawakaze/images/build-my/app".to_string();
    assert_eq!(plan.build_dataset, build);
    assert_eq!(
        plan.closing(),
        vec![
            ClosingStep::Snapshot { dataset: build.clone(), name: plan.snapshot_name.clone() },
            ClosingStep::Measure { dataset: build.clone() },
            ClosingStep::Rename { from: build, to: "zroot/kawakaze/images/my-app".to_string() },
        ]
    );
}
