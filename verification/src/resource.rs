use vstd::prelude::*;
use vstd::string::*;

use crate::error::Error;
use crate::filename::filename_of_url;
use crate::filename::get_filename_from_url;
use crate::filename::url_path_of;

verus! {

/// A source origin: a version-control checkout, a version-control clone, or
/// a remote archive to fetch and extract.
#[derive(Debug)]
pub enum Resource {
    /// A checkout-style origin. The branch selector is accepted for symmetry
    /// with `Git`, but selecting a branch on a checkout is unsupported and
    /// has no effect.
    Svn { url: String, branch: Option<String> },
    /// A clone-style origin; a branch selector, when present, is passed to
    /// the clone operation.
    Git { url: String, branch: Option<String> },
    /// A compressed archive to fetch over HTTP and extract.
    Tar { url: String },
}

/// The mathematical model of a `Resource`.
#[verifier::ext_equal]
pub enum ResourceModel {
    Svn { url: Seq<char>, branch: Option<Seq<char>> },
    Git { url: Seq<char>, branch: Option<Seq<char>> },
    Tar { url: Seq<char> },
}

impl View for Resource {
    type V = ResourceModel;

    open spec fn view(&self) -> ResourceModel {
        match self {
            Resource::Svn { url, branch } => ResourceModel::Svn {
                url: url@,
                branch: branch.deep_view(),
            },
            Resource::Git { url, branch } => ResourceModel::Git {
                url: url@,
                branch: branch.deep_view(),
            },
            Resource::Tar { url } => ResourceModel::Tar { url: url@ },
        }
    }
}

/// One external operation of a download plan.
#[derive(Debug, PartialEq, Eq)]
pub enum Step {
    /// Fetch `url` over HTTP into a file named `filename` inside the
    /// destination directory.
    Fetch { url: String, filename: String },
    /// Run the external program `program` with arguments `args`. When
    /// `in_dest` is set, its working directory is the destination;
    /// otherwise it runs in the caller's working directory.
    Run { program: String, args: Vec<String>, in_dest: bool },
}

/// The mathematical model of a `Step`.
#[verifier::ext_equal]
pub enum StepModel {
    Fetch { url: Seq<char>, filename: Seq<char> },
    Run { program: Seq<char>, args: Seq<Seq<char>>, in_dest: bool },
}

impl View for Step {
    type V = StepModel;

    open spec fn view(&self) -> StepModel {
        match self {
            Step::Fetch { url, filename } => StepModel::Fetch {
                url: url@,
                filename: filename@,
            },
            Step::Run { program, args, in_dest } => StepModel::Run {
                program: program@,
                args: args.deep_view(),
                in_dest: *in_dest,
            },
        }
    }
}

/// The models of a sequence of steps.
pub open spec fn steps_view(v: Seq<Step>) -> Seq<StepModel> {
    v.map_values(|s: Step| s@)
}

/// The checkout plan: `svn co <url> <destination>`, run in the caller's
/// working directory.
pub open spec fn svn_plan(url: Seq<char>, dest: Seq<char>) -> Seq<StepModel> {
    seq![
        StepModel::Run { program: "svn"@, args: seq!["co"@, url, dest], in_dest: false },
    ]
}

/// The clone plan: `git clone <url>`, with `-b <branch>` appended exactly
/// when a branch is set, run inside the destination.
pub open spec fn git_plan(url: Seq<char>, branch: Option<Seq<char>>) -> Seq<StepModel> {
    seq![
        StepModel::Run {
            program: "git"@,
            args: match branch {
                Option::Some(b) => seq!["clone"@, url, "-b"@, b],
                Option::None => seq!["clone"@, url],
            },
            in_dest: true,
        },
    ]
}

/// The archive plan: fetch the archive into the destination under its
/// derived filename, then `tar xf <filename>` inside the destination (only
/// the base name is passed, since extraction already runs there).
pub open spec fn tar_plan(url: Seq<char>, filename: Seq<char>) -> Seq<StepModel> {
    seq![
        StepModel::Fetch { url, filename },
        StepModel::Run { program: "tar"@, args: seq!["xf"@, filename], in_dest: true },
    ]
}

/// The plan a resource yields against a destination directory: nothing when
/// an archive origin's filename cannot be derived from its URL, and the
/// variant's plan otherwise.
pub open spec fn download_plan(r: ResourceModel, dest: Seq<char>) -> Option<Seq<StepModel>> {
    match r {
        ResourceModel::Svn { url, branch } => Option::Some(svn_plan(url, dest)),
        ResourceModel::Git { url, branch } => Option::Some(git_plan(url, branch)),
        ResourceModel::Tar { url } => match filename_of_url(url) {
            Option::Some(f) => Option::Some(tar_plan(url, f)),
            Option::None => Option::None,
        },
    }
}

impl Resource {
    /// Decide the external operations that downloading this resource into
    /// the destination directory requires. `dest_is_dir` says whether the
    /// destination exists as a directory at call time; when it does not,
    /// the precondition error comes back and no step is handed out.
    pub fn download_steps(&self, dest_is_dir: bool, dest: &str) -> (r: Result<Vec<Step>, Error>)
        ensures
            !dest_is_dir ==> r == Result::<Vec<Step>, Error>::Err(Error::NotADirectory),
            dest_is_dir ==> match self@ {
                ResourceModel::Svn { url, branch } => r is Ok && steps_view(r->Ok_0@)
                    == svn_plan(url, dest@),
                ResourceModel::Git { url, branch } => r is Ok && steps_view(r->Ok_0@)
                    == git_plan(url, branch),
                ResourceModel::Tar { url } => match filename_of_url(url) {
                    Option::Some(f) => r is Ok && steps_view(r->Ok_0@) == tar_plan(url, f),
                    Option::None => r is Err && (r->Err_0 is UrlParse <==> url_path_of(url)
                        is None) && (r->Err_0 is UrlParse || r->Err_0 is InvalidUrl),
                },
            },
            dest_is_dir ==> (r is Ok <==> download_plan(self@, dest@) is Some),
            dest_is_dir && r is Ok ==> steps_view(r->Ok_0@) == download_plan(
                self@,
                dest@,
            )->Some_0,
    {
        if !dest_is_dir {
            return Result::Err(Error::NotADirectory);
        }
        match self {
            Resource::Svn { url, branch } => {
                let mut args: Vec<String> = Vec::new();
                args.push(String::from_str("co"));
                args.push(url.clone());
                args.push(String::from_str(dest));
                let mut v: Vec<Step> = Vec::new();
                v.push(Step::Run { program: String::from_str("svn"), args, in_dest: false });
                proof {
                    assert(v@[0]@->Run_args =~= seq!["co"@, url@, dest@]);
                    assert(steps_view(v@) =~= svn_plan(url@, dest@));
                }
                Result::Ok(v)
            },
            Resource::Git { url, branch } => {
                let mut args: Vec<String> = Vec::new();
                args.push(String::from_str("clone"));
                args.push(url.clone());
                match branch {
                    Option::Some(b) => {
                        args.push(String::from_str("-b"));
                        args.push(b.clone());
                        proof {
                            assert(args.deep_view() =~= seq!["clone"@, url@, "-b"@, b@]);
                        }
                    },
                    Option::None => {
                        proof {
                            assert(args.deep_view() =~= seq!["clone"@, url@]);
                        }
                    },
                }
                let mut v: Vec<Step> = Vec::new();
                v.push(Step::Run { program: String::from_str("git"), args, in_dest: true });
                proof {
                    assert(steps_view(v@) =~= git_plan(url@, branch.deep_view()));
                }
                Result::Ok(v)
            },
            Resource::Tar { url } => {
                let filename: String = match get_filename_from_url(url.as_str()) {
                    Result::Ok(f) => f,
                    Result::Err(e) => {
                        return Result::Err(e);
                    },
                };
                let mut args: Vec<String> = Vec::new();
                args.push(String::from_str("xf"));
                args.push(filename.clone());
                let mut v: Vec<Step> = Vec::new();
                v.push(Step::Fetch { url: url.clone(), filename });
                v.push(Step::Run { program: String::from_str("tar"), args, in_dest: true });
                proof {
                    assert(v@[1]@->Run_args =~= seq!["xf"@, v@[0]@->Fetch_filename]);
                    assert(steps_view(v@) =~= tar_plan(url@, filename_of_url(url@)->Some_0));
                }
                Result::Ok(v)
            },
        }
    }
}

/// Law: a clone command line names the branch exactly when one is set — with
/// a branch it is `clone <url> -b <branch>`, without one it is `clone <url>`
/// and nothing more.
pub proof fn lemma_git_branch_args(url: Seq<char>, branch: Option<Seq<char>>)
    ensures
        git_plan(url, branch).len() == 1,
        git_plan(url, branch)[0] is Run,
        branch matches Option::Some(b) ==> git_plan(url, branch)[0]->Run_args == seq![
            "clone"@,
            url,
            "-b"@,
            b,
        ],
        branch matches Option::Some(b) ==> git_plan(url, branch)[0]->Run_args.contains("-b"@)
            && git_plan(url, branch)[0]->Run_args.contains(b),
        branch is None ==> git_plan(url, branch)[0]->Run_args == seq!["clone"@, url],
{
    if branch is Some {
        assert(git_plan(url, branch)[0]->Run_args[2] == "-b"@);
        assert(git_plan(url, branch)[0]->Run_args[3] == branch->Some_0);
    }
}

/// Law: a checkout origin ignores its branch selector — the plan is the same
/// whatever the branch, and the checkout command line holds only the
/// checkout verb, the URL and the destination.
pub proof fn lemma_svn_ignores_branch(
    url: Seq<char>,
    b1: Option<Seq<char>>,
    b2: Option<Seq<char>>,
    dest: Seq<char>,
)
    ensures
        download_plan(ResourceModel::Svn { url, branch: b1 }, dest) == download_plan(
            ResourceModel::Svn { url, branch: b2 },
            dest,
        ),
        svn_plan(url, dest)[0]->Run_args == seq!["co"@, url, dest],
{
}

} // verus!
