use vstd::prelude::*;

use crate::backend::Backend;
use crate::error::Error;
use crate::provider::{FileInline, FileProvider, FileShell, Providers, ServiceProvider};
use crate::service::{ServiceInline, ServiceShell};
use crate::text::{split_tokens, tokens};

verus! {

/// The platform families that detection knows, each with its own probe and parser.
#[derive(PartialEq, Eq, Structural, Clone, Copy, Debug)]
pub enum PlatformKind {
    RedHat,
}

/// A RedHat-family release: the family name and the release string of its marker file.
#[derive(Debug)]
pub struct RedHat {
    name: String,
    release: String,
}

/// A detected platform.
#[derive(Debug)]
pub enum Platform {
    RedHat(RedHat),
}

/// Family name and release of a RedHat marker: its first whitespace token, and the token that
/// stands three places after it (`CentOS Linux release 7.9.2009 (Core)` gives `CentOS` and
/// `7.9.2009`); nothing when the marker has fewer than four tokens.
pub open spec fn redhat_fields(contents: Seq<char>) -> Option<(Seq<char>, Seq<char>)> {
    let t = tokens(contents);
    if t.len() >= 4 {
        Some((t[0], t[3]))
    } else {
        None
    }
}

/// What `kind`'s parser makes of probe output `contents`.
pub open spec fn detect_one(kind: PlatformKind, contents: Seq<char>) -> Option<
    (PlatformKind, Seq<char>, Seq<char>),
> {
    match kind {
        PlatformKind::RedHat => match redhat_fields(contents) {
            Some(f) => Some((kind, f.0, f.1)),
            None => None,
        },
    }
}

/// The text of a probe's output, if the probe ran.
pub open spec fn probe_view(p: Option<String>) -> Option<Seq<char>> {
    match p {
        Some(s) => Some(s@),
        None => None,
    }
}

/// The registry, in the order in which candidates are tried.
pub open spec fn registry_order() -> Seq<PlatformKind> {
    seq![PlatformKind::RedHat]
}

/// The first candidate of `kinds` whose probe output (`None`: the probe failed) it accepts.
pub open spec fn first_match(kinds: Seq<PlatformKind>, probes: Seq<Option<Seq<char>>>) -> Option<
    (PlatformKind, Seq<char>, Seq<char>),
>
    decreases kinds.len(),
{
    if kinds.len() == 0 || probes.len() == 0 {
        None
    } else {
        let here = match probes[0] {
            Some(c) => detect_one(kinds[0], c),
            None => None,
        };
        if here is Some {
            here
        } else {
            first_match(kinds.drop_first(), probes.drop_first())
        }
    }
}

impl View for RedHat {
    type V = (Seq<char>, Seq<char>);

    closed spec fn view(&self) -> (Seq<char>, Seq<char>) {
        (self.name@, self.release@)
    }
}

impl View for Platform {
    type V = (PlatformKind, Seq<char>, Seq<char>);

    open spec fn view(&self) -> (PlatformKind, Seq<char>, Seq<char>) {
        match self {
            Platform::RedHat(r) => (PlatformKind::RedHat, r@.0, r@.1),
        }
    }
}

impl RedHat {
    /// An empty descriptor.
    pub fn new() -> (r: RedHat)
        ensures
            r@.0.len() == 0,
            r@.1.len() == 0,
    {
        RedHat { name: String::new(), release: String::new() }
    }

    /// The family name, such as `CentOS`.
    pub fn name(&self) -> (r: String)
        ensures
            r@ == self@.0,
    {
        self.name.clone()
    }

    /// The release string, such as `7.9.2009`.
    pub fn release(&self) -> (r: String)
        ensures
            r@ == self@.1,
    {
        self.release.clone()
    }

    /// Parses the contents of `/etc/redhat-release`; `None` when it has too few tokens.
    pub fn detect_by_redhat_release(contents: &str) -> (r: Option<RedHat>)
        ensures
            r is Some <==> redhat_fields(contents@) is Some,
            r is Some ==> r->0@ == redhat_fields(contents@)->0,
    {
        let t = split_tokens(contents);
        proof {
            assert(t@.len() == tokens(contents@).len());
        }
        if t.len() < 4 {
            return None;
        }
        proof {
            assert(t@.map_values(|t: String| t@)[0] == t@[0]@);
            assert(t@.map_values(|t: String| t@)[3] == t@[3]@);
        }
        Some(RedHat { name: t[0].clone(), release: t[3].clone() })
    }

    /// The strategies of this family: POSIX calls and the baseline Unix commands for files;
    /// systemd locally for services, and the placeholder where a command would be needed.
    pub fn get_providers(&self) -> (r: Providers)
        ensures
            r.file.inline == FileInline::Posix,
            r.file.shell == FileShell::Unix,
            r.service.inline == ServiceInline::Systemd,
            r.service.shell == ServiceShell::Null,
    {
        let fp = FileProvider { inline: FileInline::Posix, shell: FileShell::Unix };
        let sp = ServiceProvider::new(ServiceInline::Systemd, ServiceShell::Null);
        Providers { file: fp, service: sp }
    }

    /// Reads the marker through `b`; no match when the command cannot run or its output has
    /// too few tokens. A match is what the parser makes of some output.
    pub fn shell_detector<B: Backend>(b: &B) -> (r: Option<RedHat>)
        ensures
            r matches Some(p) ==> exists|c: Seq<char>| redhat_fields(c) == Some(p@),
    {
        let cmd = RedHat::probe_command();
        match b.run_command(cmd.as_str()) {
            Ok(res) => {
                let r = RedHat::detect_by_redhat_release(res.stdout.as_str());
                proof {
                    if r is Some {
                        assert(redhat_fields(res.stdout@) == Some(r->0@));
                    }
                }
                r
            },
            Err(_) => None,
        }
    }

    /// The command that reads the marker on a remote host.
    pub fn probe_command() -> (r: String)
        ensures
            r@ == "cat /etc/redhat-release"@,
    {
        String::from_str("cat /etc/redhat-release")
    }
}

impl PlatformKind {
    /// The command whose output this candidate parses.
    pub fn probe_command(&self) -> (r: String)
        ensures
            *self == PlatformKind::RedHat ==> r@ == "cat /etc/redhat-release"@,
    {
        match self {
            PlatformKind::RedHat => RedHat::probe_command(),
        }
    }

    /// This candidate's parser applied to probe output.
    pub fn detect(&self, contents: &str) -> (r: Option<Platform>)
        ensures
            r is Some <==> detect_one(*self, contents@) is Some,
            r is Some ==> r->0@ == detect_one(*self, contents@)->0,
    {
        match self {
            PlatformKind::RedHat => match RedHat::detect_by_redhat_release(contents) {
                Some(r) => Some(Platform::RedHat(r)),
                None => None,
            },
        }
    }
}

impl Platform {
    /// The strategies that the detected platform offers.
    pub fn get_providers(&self) -> (r: Providers)
        ensures
            self@.0 == PlatformKind::RedHat ==> r.file.inline == FileInline::Posix
                && r.file.shell == FileShell::Unix && r.service.inline == ServiceInline::Systemd
                && r.service.shell == ServiceShell::Null,
    {
        match self {
            Platform::RedHat(p) => p.get_providers(),
        }
    }
}

/// The candidates, in the fixed order in which detection tries them.
pub fn registry() -> (r: Vec<PlatformKind>)
    ensures
        r@ == registry_order(),
{
    let mut v: Vec<PlatformKind> = Vec::new();
    v.push(PlatformKind::RedHat);
    assert(v@ =~= registry_order());
    v
}

/// The platform that detection selects when the i-th candidate's probe gave `probes[i]`
/// (`None` where the probe failed): the first candidate that accepts its output, or
/// `PlatformUnknown`.
pub fn detect_from_probes(probes: &Vec<Option<String>>) -> (r: Result<Platform, Error>)
    ensures
        ({
            let m = first_match(
                registry_order(),
                probes@.map_values(|p: Option<String>| probe_view(p)),
            );
            &&& m is None <==> r is Err
            &&& r is Err ==> r->Err_0 == Error::PlatformUnknown
            &&& r is Ok ==> r->Ok_0@ == m->0
        }),
{
    let kinds = registry();
    let ghost all = probes@.map_values(|p: Option<String>| probe_view(p));
    let mut i: usize = 0;
    assert(kinds@.subrange(0, kinds@.len() as int) =~= kinds@);
    assert(all.subrange(0, all.len() as int) =~= all);
    while i < kinds.len() && i < probes.len()
        invariant
            kinds@ == registry_order(),
            all == probes@.map_values(|p: Option<String>| probe_view(p)),
            i <= kinds.len(),
            i <= probes.len(),
            first_match(registry_order(), all) == first_match(
                kinds@.subrange(i as int, kinds@.len() as int),
                all.subrange(i as int, all.len() as int),
            ),
        decreases kinds.len() - i,
    {
        let ks = Ghost(kinds@.subrange(i as int, kinds@.len() as int));
        let ps = Ghost(all.subrange(i as int, all.len() as int));
        proof {
            assert(ks@.drop_first() =~= kinds@.subrange(i as int + 1, kinds@.len() as int));
            assert(ps@.drop_first() =~= all.subrange(i as int + 1, all.len() as int));
            assert(ks@[0] == kinds@[i as int]);
            assert(ps@[0] == all[i as int]);
        }
        match &probes[i] {
            Some(c) => {
                match kinds[i].detect(c.as_str()) {
                    Some(p) => {
                        return Ok(p);
                    },
                    None => {},
                }
            },
            None => {},
        }
        i = i + 1;
    }
    proof {
        let ks = kinds@.subrange(i as int, kinds@.len() as int);
        let ps = all.subrange(i as int, all.len() as int);
        assert(ks.len() == 0 || ps.len() == 0);
    }
    Err(Error::PlatformUnknown)
}

/// The probe outputs before index `i` are all rejected, so the first match is that of the rest.
proof fn lemma_first_match_skips(kinds: Seq<PlatformKind>, probes: Seq<Option<Seq<char>>>, i: int)
    requires
        0 <= i <= kinds.len(),
        i <= probes.len(),
        forall|j: int|
            0 <= j < i ==> probes[j] is None || detect_one(kinds[j], #[trigger] probes[j]->0) is None,
    ensures
        first_match(kinds, probes) == first_match(
            kinds.subrange(i, kinds.len() as int),
            probes.subrange(i, probes.len() as int),
        ),
    decreases i,
{
    if i == 0 {
        assert(kinds.subrange(0, kinds.len() as int) =~= kinds);
        assert(probes.subrange(0, probes.len() as int) =~= probes);
    } else {
        let k1 = kinds.drop_first();
        let p1 = probes.drop_first();
        assert forall|j: int| 0 <= j < i - 1 implies p1[j] is None || detect_one(
            k1[j],
            #[trigger] p1[j]->0,
        ) is None by {
            assert(p1[j] == probes[j + 1]);
        }
        lemma_first_match_skips(k1, p1, i - 1);
        assert(k1.subrange(i - 1, k1.len() as int) =~= kinds.subrange(i, kinds.len() as int));
        assert(p1.subrange(i - 1, p1.len() as int) =~= probes.subrange(i, probes.len() as int));
        assert(probes[0] is None || detect_one(kinds[0], probes[0]->0) is None);
    }
}

/// Tries each candidate of the registry in order through `b`, and returns the first that
/// accepts the output of its probe; a probe that fails counts as no match, and no probe runs
/// after a match. The result is what `first_match` selects for the outputs that the probes
/// gave (`None` where a probe failed or did not run).
pub fn detect_platform<B: Backend>(b: &B) -> (r: Result<Platform, Error>)
    ensures
        r is Err ==> r->Err_0 == Error::PlatformUnknown,
        exists|outs: Seq<Option<Seq<char>>>|
            outs.len() == registry_order().len() && (first_match(registry_order(), outs) is None
                <==> r is Err) && (r is Ok ==> r->Ok_0@ == first_match(
                registry_order(),
                outs,
            )->0),
{
    let kinds = registry();
    let ghost outs: Seq<Option<Seq<char>>> = Seq::empty();
    let mut i: usize = 0;
    while i < kinds.len()
        invariant
            kinds@ == registry_order(),
            i <= kinds.len(),
            outs.len() == i,
            forall|j: int|
                0 <= j < i ==> outs[j] is None || detect_one(kinds@[j], #[trigger] outs[j]->0)
                    is None,
        decreases kinds.len() - i,
    {
        let cmd = kinds[i].probe_command();
        let probe: Option<String> = match b.run_command(cmd.as_str()) {
            Ok(res) => Some(res.stdout),
            Err(_) => None,
        };
        if let Some(c) = &probe {
            if let Some(p) = kinds[i].detect(c.as_str()) {
                let found: Result<Platform, Error> = Ok(p);
                proof {
                    let n = kinds@.len() as int;
                    let full = outs.push(Some(c@)) + Seq::new(
                        (n - i - 1) as nat,
                        |j: int| None::<Seq<char>>,
                    );
                    assert forall|j: int| 0 <= j < i implies full[j] is None || detect_one(
                        kinds@[j],
                        #[trigger] full[j]->0,
                    ) is None by {
                        assert(full[j] == outs[j]);
                    }
                    lemma_first_match_skips(kinds@, full, i as int);
                    let ks = kinds@.subrange(i as int, n);
                    let ps = full.subrange(i as int, full.len() as int);
                    assert(ks[0] == kinds@[i as int]);
                    assert(ps[0] == Some(c@));
                    assert(first_match(registry_order(), full) == detect_one(kinds@[i as int], c@));
                    assert(first_match(registry_order(), full) is None <==> found is Err);
                }
                return found;
            }
        }
        proof {
            outs = outs.push(
                match probe {
                    Some(c) => Some(c@),
                    None => None,
                },
            );
        }
        i = i + 1;
    }
    proof {
        lemma_first_match_skips(kinds@, outs, i as int);
        assert(first_match(registry_order(), outs) is None);
    }
    Err(Error::PlatformUnknown)
}

/// Detection is deterministic and follows the registry order: the platform selected for given
/// probe outputs is that of the first candidate whose parser accepts its output, and no
/// earlier candidate accepts its own.
pub proof fn lemma_detection_follows_registry_order(
    kinds: Seq<PlatformKind>,
    p1: Seq<Option<Seq<char>>>,
)
    ensures
        first_match(kinds, p1) is Some ==> exists|i: int|
            0 <= i < kinds.len() && i < p1.len() && p1[i] is Some
                && #[trigger] detect_one(kinds[i], p1[i]->0) == first_match(kinds, p1)
                && forall|j: int|
                0 <= j < i ==> p1[j] is None || detect_one(kinds[j], #[trigger] p1[j]->0) is None,
    decreases kinds.len(),
{
    if kinds.len() > 0 && p1.len() > 0 {
        let here = match p1[0] {
            Some(c) => detect_one(kinds[0], c),
            None => None,
        };
        if here is None {
            lemma_detection_follows_registry_order(kinds.drop_first(), p1.drop_first());
            if first_match(kinds, p1) is Some {
                let k = choose|k: int|
                    0 <= k < kinds.drop_first().len() && k < p1.drop_first().len()
                        && p1.drop_first()[k] is Some && #[trigger] detect_one(
                        kinds.drop_first()[k],
                        p1.drop_first()[k]->0,
                    ) == first_match(kinds.drop_first(), p1.drop_first()) && forall|j: int|
                        0 <= j < k ==> p1.drop_first()[j] is None || detect_one(
                            kinds.drop_first()[j],
                            #[trigger] p1.drop_first()[j]->0,
                        ) is None;
                assert(detect_one(kinds[k + 1], p1[k + 1]->0) == first_match(kinds, p1));
                assert forall|j: int| 0 <= j < k + 1 implies p1[j] is None || detect_one(
                    kinds[j],
                    #[trigger] p1[j]->0,
                ) is None by {
                    if j > 0 {
                        assert(p1[j] == p1.drop_first()[j - 1]);
                        assert(kinds[j] == kinds.drop_first()[j - 1]);
                    }
                }
            }
        } else {
            assert(detect_one(kinds[0], p1[0]->0) == first_match(kinds, p1));
        }
    }
}

} // verus!
