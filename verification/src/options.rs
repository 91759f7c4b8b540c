use vstd::prelude::*;

verus! {

/// How an upload treats a file that already stands at the target path.
/// `Update` holds the revision that the upload supersedes.
#[derive(Debug)]
pub enum UploadMode {
    Add,
    Overwrite,
    Update(String),
}

pub enum UploadModeView {
    Add,
    Overwrite,
    Update(Seq<char>),
}

impl UploadModeView {
    /// An update names a revision, so its revision is not empty.
    pub open spec fn wf(self) -> bool {
        self matches UploadModeView::Update(rev) ==> rev.len() > 0
    }
}

impl View for UploadMode {
    type V = UploadModeView;

    open spec fn view(&self) -> UploadModeView {
        match self {
            UploadMode::Add => UploadModeView::Add,
            UploadMode::Overwrite => UploadModeView::Overwrite,
            UploadMode::Update(rev) => UploadModeView::Update(rev@),
        }
    }
}

impl Clone for UploadMode {
    fn clone(&self) -> (copy: Self)
        ensures
            copy@ == self@,
    {
        match self {
            UploadMode::Add => UploadMode::Add,
            UploadMode::Overwrite => UploadMode::Overwrite,
            UploadMode::Update(rev) => UploadMode::Update(rev.clone()),
        }
    }
}

impl UploadMode {
    /// The update of the given revision; `None` for an empty revision.
    pub fn update(rev: String) -> (mode: Option<UploadMode>)
        ensures
            rev@.len() > 0 <==> mode is Some,
            mode is Some ==> mode->Some_0@ == UploadModeView::Update(rev@),
            mode is Some ==> mode->Some_0@.wf(),
    {
        if rev.as_str().unicode_len() == 0 {
            None
        } else {
            Some(UploadMode::Update(rev))
        }
    }

    /// Whether the mode keeps the rule on revisions.
    pub fn is_wf(&self) -> (ok: bool)
        ensures
            ok == self@.wf(),
    {
        match self {
            UploadMode::Update(rev) => rev.as_str().unicode_len() > 0,
            _ => true,
        }
    }
}

/// The content of an `UploadOption`, and of the builder that makes one.
pub struct UploadOptionView {
    pub mode: UploadModeView,
    pub allow_auto_rename: bool,
    pub mute_notification: bool,
    pub allow_strict_conflict: bool,
}

impl UploadOptionView {
    /// The option that every construction starts from: add the file, let
    /// the service rename it, notify, no strict conflict.
    pub open spec fn initial() -> Self {
        UploadOptionView {
            mode: UploadModeView::Add,
            allow_auto_rename: true,
            mute_notification: false,
            allow_strict_conflict: false,
        }
    }

    pub open spec fn disallow_auto_rename(self) -> Self {
        UploadOptionView { allow_auto_rename: false, ..self }
    }

    pub open spec fn mute_notification(self) -> Self {
        UploadOptionView { mute_notification: true, ..self }
    }

    pub open spec fn allow_strict_conflict(self) -> Self {
        UploadOptionView { allow_strict_conflict: true, ..self }
    }

    pub open spec fn set_upload_mode(self, mode: UploadModeView) -> Self {
        UploadOptionView { mode, ..self }
    }

    /// The option is well formed where its mode is.
    pub open spec fn wf(self) -> bool {
        self.mode.wf()
    }
}

/// How an upload is to behave. A value does not change once made: each
/// method takes the option and gives back the one that differs from it in
/// one field.
#[derive(Debug)]
pub struct UploadOption {
    mode: UploadMode,
    allow_auto_rename: bool,
    mute_notification: bool,
    allow_strict_conflict: bool,
}

impl View for UploadOption {
    type V = UploadOptionView;

    closed spec fn view(&self) -> UploadOptionView {
        UploadOptionView {
            mode: self.mode@,
            allow_auto_rename: self.allow_auto_rename,
            mute_notification: self.mute_notification,
            allow_strict_conflict: self.allow_strict_conflict,
        }
    }
}

impl Clone for UploadOption {
    fn clone(&self) -> (copy: Self)
        ensures
            copy@ == self@,
    {
        UploadOption {
            mode: self.mode.clone(),
            allow_auto_rename: self.allow_auto_rename,
            mute_notification: self.mute_notification,
            allow_strict_conflict: self.allow_strict_conflict,
        }
    }
}

impl UploadOption {
    pub fn new() -> (option: Self)
        ensures
            option@ == UploadOptionView::initial(),
    {
        UploadOption {
            mode: UploadMode::Add,
            allow_auto_rename: true,
            mute_notification: false,
            allow_strict_conflict: false,
        }
    }

    pub fn disallow_auto_rename(self) -> (option: Self)
        ensures
            option@ == self@.disallow_auto_rename(),
    {
        UploadOption { allow_auto_rename: false, ..self }
    }

    pub fn mute_notification(self) -> (option: Self)
        ensures
            option@ == self@.mute_notification(),
    {
        UploadOption { mute_notification: true, ..self }
    }

    pub fn allow_strict_conflict(self) -> (option: Self)
        ensures
            option@ == self@.allow_strict_conflict(),
    {
        UploadOption { allow_strict_conflict: true, ..self }
    }

    pub fn set_upload_mode(self, mode: UploadMode) -> (option: Self)
        ensures
            option@ == self@.set_upload_mode(mode@),
    {
        UploadOption { mode, ..self }
    }

    pub fn mode(&self) -> (mode: &UploadMode)
        ensures
            mode@ == self@.mode,
    {
        &self.mode
    }

    pub fn auto_rename_allowed(&self) -> (flag: bool)
        ensures
            flag == self@.allow_auto_rename,
    {
        self.allow_auto_rename
    }

    pub fn notification_muted(&self) -> (flag: bool)
        ensures
            flag == self@.mute_notification,
    {
        self.mute_notification
    }

    pub fn strict_conflict_allowed(&self) -> (flag: bool)
        ensures
            flag == self@.allow_strict_conflict,
    {
        self.allow_strict_conflict
    }
}

/// Collects the settings of an upload and makes `UploadOption`s of them.
pub struct UploadOptionBuilder {
    mode: UploadMode,
    allow_auto_rename: bool,
    mute_notification: bool,
    allow_strict_conflict: bool,
}

impl View for UploadOptionBuilder {
    type V = UploadOptionView;

    closed spec fn view(&self) -> UploadOptionView {
        UploadOptionView {
            mode: self.mode@,
            allow_auto_rename: self.allow_auto_rename,
            mute_notification: self.mute_notification,
            allow_strict_conflict: self.allow_strict_conflict,
        }
    }
}

impl UploadOptionBuilder {
    /// The builder of the option with mode `Add`, renaming allowed,
    /// notification on and no strict conflict.
    pub fn new() -> (builder: Self)
        ensures
            builder@ == UploadOptionView::initial(),
    {
        Self {
            mode: UploadMode::Add,
            allow_auto_rename: true,
            mute_notification: false,
            allow_strict_conflict: false,
        }
    }

    pub fn disallow_auto_rename(&mut self) -> (builder: &mut UploadOptionBuilder)
        ensures
            builder@ == old(self)@.disallow_auto_rename(),
            *final(self) == *final(builder),
    {
        self.allow_auto_rename = false;
        self
    }

    pub fn mute_notification(&mut self) -> (builder: &mut UploadOptionBuilder)
        ensures
            builder@ == old(self)@.mute_notification(),
            *final(self) == *final(builder),
    {
        self.mute_notification = true;
        self
    }

    pub fn allow_strict_conflict(&mut self) -> (builder: &mut UploadOptionBuilder)
        ensures
            builder@ == old(self)@.allow_strict_conflict(),
            *final(self) == *final(builder),
    {
        self.allow_strict_conflict = true;
        self
    }

    pub fn set_upload_mode(&mut self, mode: UploadMode) -> (builder: &mut UploadOptionBuilder)
        ensures
            builder@ == old(self)@.set_upload_mode(mode@),
            *final(self) == *final(builder),
    {
        self.mode = mode;
        self
    }

    /// The option that holds what the builder holds. The builder stays as
    /// it is and can build again.
    pub fn build(&self) -> (option: UploadOption)
        ensures
            option@ == self@,
    {
        UploadOption {
            mode: self.mode.clone(),
            allow_auto_rename: self.allow_auto_rename,
            mute_notification: self.mute_notification,
            allow_strict_conflict: self.allow_strict_conflict,
        }
    }
}

/// The content of a `MoveCopyOption`, and of the builder that makes one.
pub struct MoveCopyOptionView {
    pub allow_shared_folder: bool,
    pub auto_rename: bool,
    pub allow_ownership_transfer: bool,
}

impl MoveCopyOptionView {
    /// The option that every construction starts from: nothing is allowed.
    pub open spec fn initial() -> Self {
        MoveCopyOptionView {
            allow_shared_folder: false,
            auto_rename: false,
            allow_ownership_transfer: false,
        }
    }

    pub open spec fn allow_shared_folder(self) -> Self {
        MoveCopyOptionView { allow_shared_folder: true, ..self }
    }

    pub open spec fn allow_auto_rename(self) -> Self {
        MoveCopyOptionView { auto_rename: true, ..self }
    }

    pub open spec fn allow_ownership_transfer(self) -> Self {
        MoveCopyOptionView { allow_ownership_transfer: true, ..self }
    }
}

/// How a move or a copy is to behave. A value does not change once made.
#[derive(Clone, Copy, Debug)]
pub struct MoveCopyOption {
    allow_shared_folder: bool,
    auto_rename: bool,
    allow_ownership_transfer: bool,
}

impl View for MoveCopyOption {
    type V = MoveCopyOptionView;

    closed spec fn view(&self) -> MoveCopyOptionView {
        MoveCopyOptionView {
            allow_shared_folder: self.allow_shared_folder,
            auto_rename: self.auto_rename,
            allow_ownership_transfer: self.allow_ownership_transfer,
        }
    }
}

impl MoveCopyOption {
    pub fn new() -> (option: Self)
        ensures
            option@ == MoveCopyOptionView::initial(),
    {
        MoveCopyOption {
            allow_shared_folder: false,
            auto_rename: false,
            allow_ownership_transfer: false,
        }
    }

    pub fn allow_shared_folder(self) -> (option: Self)
        ensures
            option@ == self@.allow_shared_folder(),
    {
        MoveCopyOption { allow_shared_folder: true, ..self }
    }

    pub fn allow_auto_rename(self) -> (option: Self)
        ensures
            option@ == self@.allow_auto_rename(),
    {
        MoveCopyOption { auto_rename: true, ..self }
    }

    pub fn allow_ownership_transfer(self) -> (option: Self)
        ensures
            option@ == self@.allow_ownership_transfer(),
    {
        MoveCopyOption { allow_ownership_transfer: true, ..self }
    }

    pub fn shared_folder_allowed(&self) -> (flag: bool)
        ensures
            flag == self@.allow_shared_folder,
    {
        self.allow_shared_folder
    }

    pub fn auto_rename_allowed(&self) -> (flag: bool)
        ensures
            flag == self@.auto_rename,
    {
        self.auto_rename
    }

    pub fn ownership_transfer_allowed(&self) -> (flag: bool)
        ensures
            flag == self@.allow_ownership_transfer,
    {
        self.allow_ownership_transfer
    }
}

/// Collects the settings of a move or a copy and makes `MoveCopyOption`s of
/// them.
pub struct MoveCopyOptionBuilder {
    allow_shared_folder: bool,
    auto_rename: bool,
    allow_ownership_transfer: bool,
}

impl View for MoveCopyOptionBuilder {
    type V = MoveCopyOptionView;

    closed spec fn view(&self) -> MoveCopyOptionView {
        MoveCopyOptionView {
            allow_shared_folder: self.allow_shared_folder,
            auto_rename: self.auto_rename,
            allow_ownership_transfer: self.allow_ownership_transfer,
        }
    }
}

impl MoveCopyOptionBuilder {
    /// The builder of the option that allows nothing.
    pub fn new() -> (builder: Self)
        ensures
            builder@ == MoveCopyOptionView::initial(),
    {
        Self { allow_shared_folder: false, auto_rename: false, allow_ownership_transfer: false }
    }

    pub fn allow_shared_folder(&mut self) -> (builder: &mut MoveCopyOptionBuilder)
        ensures
            builder@ == old(self)@.allow_shared_folder(),
            *final(self) == *final(builder),
    {
        self.allow_shared_folder = true;
        self
    }

    pub fn allow_auto_rename(&mut self) -> (builder: &mut MoveCopyOptionBuilder)
        ensures
            builder@ == old(self)@.allow_auto_rename(),
            *final(self) == *final(builder),
    {
        self.auto_rename = true;
        self
    }

    pub fn allow_ownership_transfer(&mut self) -> (builder: &mut MoveCopyOptionBuilder)
        ensures
            builder@ == old(self)@.allow_ownership_transfer(),
            *final(self) == *final(builder),
    {
        self.allow_ownership_transfer = true;
        self
    }

    /// The option that holds what the builder holds.
    pub fn build(&mut self) -> (option: MoveCopyOption)
        ensures
            option@ == old(self)@,
            *final(self) == *old(self),
    {
        MoveCopyOption {
            allow_ownership_transfer: self.allow_ownership_transfer,
            allow_shared_folder: self.allow_shared_folder,
            auto_rename: self.auto_rename,
        }
    }
}

} // verus!
