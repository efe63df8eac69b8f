//! A model of what enrollment reads and writes on the host for one user, and
//! the leaf operations on it, each recorded as an `Effect` for the caller to
//! carry out on the real files in the same order.
use vstd::prelude::*;
use crate::error::YubiError;
use crate::pam::{add_pam_line, ensured, marker, pam_marker, PamFile};

verus! {

/// One leaf operation on the host's files.
#[derive(Clone, Copy, Debug, PartialEq, Eq, Structural)]
pub enum Effect {
    /// Create the user's key configuration directory and its parents.
    CreateConfigDir,
    /// Append the generator's output to the user's registration file and make
    /// that file readable and writable by its owner only.
    AppendRegistration,
    /// Copy the PAM file over its `.bak` sibling.
    Backup(PamFile),
    /// Rewrite the PAM file so that the marker line occurs in it.
    EnsureMarker(PamFile),
    /// Copy the `.bak` sibling over the PAM file.
    Restore(PamFile),
    /// Remove the user's registration file if it is there.
    DeleteRegistration,
    /// Remove the user's key configuration directory if it is empty.
    PruneConfigDir,
}

/// What the host holds, as the library sees it.
pub ghost struct HostView {
    pub username: Seq<char>,
    pub registration: bool,
    pub config_dir: bool,
    pub config_dir_other_entries: bool,
    pub sudo: Option<Seq<char>>,
    pub sudo_backup: Option<Seq<char>>,
    pub gdm: Option<Seq<char>>,
    pub gdm_backup: Option<Seq<char>>,
}

/// The state of the host that enrollment of one user depends on.
pub struct HostState {
    /// The user concerned.
    pub username: String,
    /// The user's registration file exists.
    pub registration: bool,
    /// The user's key configuration directory exists.
    pub config_dir: bool,
    /// That directory holds entries besides the registration file.
    pub config_dir_other_entries: bool,
    /// The text of the sudo PAM file; `None` when it cannot be read.
    pub sudo: Option<String>,
    /// The text of its backup; `None` when there is none.
    pub sudo_backup: Option<String>,
    /// The text of the login manager's PAM file; `None` when it cannot be read.
    pub gdm: Option<String>,
    /// The text of its backup; `None` when there is none.
    pub gdm_backup: Option<String>,
}

impl View for HostState {
    type V = HostView;

    open spec fn view(&self) -> HostView {
        HostView {
            username: self.username@,
            registration: self.registration,
            config_dir: self.config_dir,
            config_dir_other_entries: self.config_dir_other_entries,
            sudo: self.sudo.deep_view(),
            sudo_backup: self.sudo_backup.deep_view(),
            gdm: self.gdm.deep_view(),
            gdm_backup: self.gdm_backup.deep_view(),
        }
    }
}

impl HostView {
    pub open spec fn file(self, f: PamFile) -> Option<Seq<char>> {
        match f {
            PamFile::Sudo => self.sudo,
            PamFile::GdmPassword => self.gdm,
        }
    }

    pub open spec fn backup(self, f: PamFile) -> Option<Seq<char>> {
        match f {
            PamFile::Sudo => self.sudo_backup,
            PamFile::GdmPassword => self.gdm_backup,
        }
    }

    pub open spec fn with_file(self, f: PamFile, t: Option<Seq<char>>) -> HostView {
        match f {
            PamFile::Sudo => HostView { sudo: t, ..self },
            PamFile::GdmPassword => HostView { gdm: t, ..self },
        }
    }

    pub open spec fn with_backup(self, f: PamFile, t: Option<Seq<char>>) -> HostView {
        match f {
            PamFile::Sudo => HostView { sudo_backup: t, ..self },
            PamFile::GdmPassword => HostView { gdm_backup: t, ..self },
        }
    }
}

/// The host after one leaf operation succeeded.
pub open spec fn apply(h: HostView, e: Effect) -> HostView {
    match e {
        Effect::CreateConfigDir => HostView { config_dir: true, ..h },
        Effect::AppendRegistration => HostView { registration: true, ..h },
        Effect::Backup(f) => h.with_backup(f, h.file(f)),
        Effect::EnsureMarker(f) => match h.file(f) {
            Some(t) => h.with_file(f, Some(ensured(t, pam_marker()))),
            None => h,
        },
        Effect::Restore(f) => match h.backup(f) {
            Some(t) => h.with_file(f, Some(t)),
            None => h,
        },
        Effect::DeleteRegistration => HostView { registration: false, ..h },
        Effect::PruneConfigDir => if !h.registration && !h.config_dir_other_entries {
            HostView { config_dir: false, ..h }
        } else {
            h
        },
    }
}

/// The host after the leaf operations `es` succeeded, in order.
pub open spec fn apply_all(h: HostView, es: Seq<Effect>) -> HostView
    decreases es.len(),
{
    if es.len() == 0 {
        h
    } else {
        apply(apply_all(h, es.drop_last()), es.last())
    }
}

pub proof fn lemma_apply_all_concat(h: HostView, a: Seq<Effect>, b: Seq<Effect>)
    ensures
        apply_all(h, a + b) == apply_all(apply_all(h, a), b),
    decreases b.len(),
{
    if b.len() == 0 {
        assert(a + b =~= a);
    } else {
        lemma_apply_all_concat(h, a, b.drop_last());
        assert((a + b).drop_last() =~= a + b.drop_last());
        assert((a + b).last() == b.last());
    }
}

pub proof fn lemma_apply_one(h: HostView, e: Effect)
    ensures
        apply_all(h, seq![e]) == apply(h, e),
{
    let s = seq![e];
    assert(s.drop_last() =~= Seq::<Effect>::empty());
    assert(apply_all(h, s.drop_last()) == h);
    assert(s.last() == e);
}

/// An operation that records `es` and leaves the log and the model in step.
pub open spec fn performed(
    h0: HostView,
    log0: Seq<Effect>,
    h1: HostView,
    log1: Seq<Effect>,
    es: Seq<Effect>,
) -> bool {
    &&& log1 == log0 + es
    &&& h1 == apply_all(h0, es)
}

pub proof fn lemma_performed_trans(
    h0: HostView,
    l0: Seq<Effect>,
    h1: HostView,
    l1: Seq<Effect>,
    h2: HostView,
    l2: Seq<Effect>,
    a: Seq<Effect>,
    b: Seq<Effect>,
)
    requires
        performed(h0, l0, h1, l1, a),
        performed(h1, l1, h2, l2, b),
    ensures
        performed(h0, l0, h2, l2, a + b),
{
    lemma_apply_all_concat(h0, a, b);
    assert(l0 + a + b =~= l0 + (a + b));
}

pub proof fn lemma_performed_none(h: HostView, l: Seq<Effect>)
    ensures
        performed(h, l, h, l, Seq::empty()),
{
    assert(l + Seq::<Effect>::empty() =~= l);
}

pub proof fn lemma_performed_one(h0: HostView, l0: Seq<Effect>, h1: HostView, l1: Seq<Effect>, e: Effect)
    requires
        performed(h0, l0, h1, l1, seq![e]),
    ensures
        h1 == apply(h0, e),
{
    lemma_apply_one(h0, e);
}

/// The outcome of backing a PAM file up.
pub open spec fn backup_plan(h: HostView, f: PamFile) -> (Seq<Effect>, Result<(), YubiError>) {
    match h.file(f) {
        Some(_) => (seq![Effect::Backup(f)], Ok(())),
        None => (Seq::empty(), Err(YubiError::IoError)),
    }
}

/// The outcome of restoring a PAM file from its backup.
pub open spec fn restore_plan(h: HostView, f: PamFile) -> (Seq<Effect>, Result<(), YubiError>) {
    match h.backup(f) {
        Some(_) => (seq![Effect::Restore(f)], Ok(())),
        None => (Seq::empty(), Err(YubiError::NoBackupFound(f))),
    }
}

/// The outcome of ensuring the marker line in a PAM file.
pub open spec fn ensure_plan(h: HostView, f: PamFile) -> (Seq<Effect>, Result<(), YubiError>) {
    match h.file(f) {
        Some(_) => (seq![Effect::EnsureMarker(f)], Ok(())),
        None => (Seq::empty(), Err(YubiError::IoError)),
    }
}

fn copy_text(o: &Option<String>) -> (r: Option<String>)
    ensures
        r.deep_view() == o.deep_view(),
{
    match o {
        Some(t) => Some(t.clone()),
        None => None,
    }
}

impl HostState {
    /// The current text of a PAM file.
    pub fn file(&self, f: PamFile) -> (r: &Option<String>)
        ensures
            r.deep_view() == self@.file(f),
    {
        match f {
            PamFile::Sudo => &self.sudo,
            PamFile::GdmPassword => &self.gdm,
        }
    }

    /// The current text of a PAM file's backup.
    pub fn backup(&self, f: PamFile) -> (r: &Option<String>)
        ensures
            r.deep_view() == self@.backup(f),
    {
        match f {
            PamFile::Sudo => &self.sudo_backup,
            PamFile::GdmPassword => &self.gdm_backup,
        }
    }

    fn set_file(&mut self, f: PamFile, t: Option<String>)
        ensures
            final(self)@ == old(self)@.with_file(f, t.deep_view()),
    {
        match f {
            PamFile::Sudo => self.sudo = t,
            PamFile::GdmPassword => self.gdm = t,
        }
    }

    fn set_backup(&mut self, f: PamFile, t: Option<String>)
        ensures
            final(self)@ == old(self)@.with_backup(f, t.deep_view()),
    {
        match f {
            PamFile::Sudo => self.sudo_backup = t,
            PamFile::GdmPassword => self.gdm_backup = t,
        }
    }

    /// Carries one leaf operation out on the model and records it.
    pub fn perform(&mut self, log: &mut Vec<Effect>, e: Effect)
        ensures
            performed(old(self)@, old(log)@, final(self)@, final(log)@, seq![e]),
            final(self)@ == apply(old(self)@, e),
    {
        match e {
            Effect::CreateConfigDir => self.config_dir = true,
            Effect::AppendRegistration => self.registration = true,
            Effect::Backup(f) => {
                let t = copy_text(self.file(f));
                self.set_backup(f, t);
            },
            Effect::EnsureMarker(f) => {
                let cur = copy_text(self.file(f));
                match cur {
                    Some(t) => {
                        match add_pam_line(t.as_str(), marker()) {
                            Some(n) => self.set_file(f, Some(n)),
                            None => {
                                assert(old(self)@.with_file(f, Some(t@)) == old(self)@);
                            },
                        }
                    },
                    None => {},
                }
            },
            Effect::Restore(f) => {
                let b = copy_text(self.backup(f));
                match b {
                    Some(t) => self.set_file(f, Some(t)),
                    None => {},
                }
            },
            Effect::DeleteRegistration => self.registration = false,
            Effect::PruneConfigDir => {
                if !self.registration && !self.config_dir_other_entries {
                    self.config_dir = false;
                }
            },
        }
        log.push(e);
        proof {
            lemma_apply_one(old(self)@, e);
            assert(log@ =~= old(log)@ + seq![e]);
        }
    }
}

} // verus!
