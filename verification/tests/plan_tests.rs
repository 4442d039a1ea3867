use srcfetch::Error;
use srcfetch::Resource;
use srcfetch::Step;

#[test]
fn not_a_directory_fails_every_variant() {
    let resources = vec![
        Resource::Svn { url: "http://example.org/repo".to_string(), branch: None },
        Resource::Git { url: "http://example.org/repo".to_string(), branch: None },
        Resource::Tar { url: "http://example.org/a.tar.gz".to_string() },
    ];
    for r in resources {
        assert_eq!(r.download_steps(false, "/no/such/dir"), Err(Error::NotADirectory));
    }
}

#[test]
fn git_plan_without_branch() {
    let r = Resource::Git { url: "http://github.com/termoshtt/llvmenv".to_string(), branch: None };
    let steps = r.download_steps(true, "/tmp/work").unwrap();
    assert_eq!(
        steps,
        vec![Step::Run {
            program: "git".to_string(),
            args: vec!["clone".to_string(), "http://github.com/termoshtt/llvmenv".to_string()],
            in_dest: true,
        }]
    );
}

#[test]
fn git_plan_with_branch_names_it() {
    let r = Resource::Git {
        url: "http://github.com/termoshtt/llvmenv".to_string(),
        branch: Some("develop".to_string()),
    };
    let steps = r.download_steps(true, "/tmp/work").unwrap();
    assert_eq!(
        steps,
        vec![Step::Run {
            program: "git".to_string(),
            args: vec![
                "clone".to_string(),
                "http://github.com/termoshtt/llvmenv".to_string(),
                "-b".to_string(),
                "develop".to_string(),
            ],
            in_dest: true,
        }]
    );
}

#[test]
fn svn_plan_runs_in_caller_directory() {
    let r = Resource::Svn { url: "http://example.org/repo/trunk".to_string(), branch: None };
    let steps = r.download_steps(true, "/tmp/work").unwrap();
    assert_eq!(
        steps,
        vec![Step::Run {
            program: "svn".to_string(),
            args: vec![
                "co".to_string(),
                "http://example.org/repo/trunk".to_string(),
                "/tmp/work".to_string(),
            ],
            in_dest: false,
        }]
    );
}

#[test]
fn svn_plan_ignores_branch() {
    let with_branch = Resource::Svn {
        url: "http://example.org/repo/trunk".to_string(),
        branch: Some("stable".to_string()),
    };
    let without = Resource::Svn { url: "http://example.org/repo/trunk".to_string(), branch: None };
    let a = with_branch.download_steps(true, "/tmp/work").unwrap();
    let b = without.download_steps(true, "/tmp/work").unwrap();
    assert_eq!(a, b);
    match &a[0] {
        Step::Run { args, .. } => assert!(!args.contains(&"stable".to_string())),
        other => panic!("unexpected step {:?}", other),
    }
}

#[test]
fn tar_plan_fetches_then_extracts() {
    let r = Resource::Tar {
        url: "https://github.com/termoshtt/llvmenv/archive/0.1.10.tar.gz".to_string(),
    };
    let steps = r.download_steps(true, "/tmp/work").unwrap();
    assert_eq!(
        steps,
        vec![
            Step::Fetch {
                url: "https://github.com/termoshtt/llvmenv/archive/0.1.10.tar.gz".to_string(),
                filename: "0.1.10.tar.gz".to_string(),
            },
            Step::Run {
                program: "tar".to_string(),
                args: vec!["xf".to_string(), "0.1.10.tar.gz".to_string()],
                in_dest: true,
            },
        ]
    );
}

#[test]
fn tar_plan_extracts_base_name_not_full_path() {
    let r = Resource::Tar { url: "https://example.org/releases/project-1.0.tar.gz".to_string() };
    let steps = r.download_steps(true, "/tmp/work").unwrap();
    match &steps[1] {
        Step::Run { args, in_dest, .. } => {
            assert_eq!(args[1], "project-1.0.tar.gz");
            assert!(*in_dest);
        },
        other => panic!("unexpected step {:?}", other),
    }
}

#[test]
fn tar_plan_bare_host_fails() {
    let r = Resource::Tar { url: "http://example.org".to_string() };
    assert_eq!(r.download_steps(true, "/tmp/work"), Err(Error::InvalidUrl));
}

#[test]
fn tar_plan_malformed_url_fails() {
    let r = Resource::Tar { url: "::nonsense::".to_string() };
    assert_eq!(r.download_steps(true, "/tmp/work"), Err(Error::UrlParse));
}
