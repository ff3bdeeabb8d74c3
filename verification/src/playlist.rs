//! The directory that the library browser shows, the way up from it, and the
//! download of a song into it.

use vstd::prelude::*;

verus! {

/// A path as its components: whether it starts at the root, and the names
/// that follow, `.` and `..` among them.
#[derive(Clone, Debug, PartialEq, Eq)]
pub struct DirPath {
    pub rooted: bool,
    pub names: Vec<String>,
}

/// What a `DirPath` holds, with each name as a sequence of characters.
pub struct DirPathView {
    pub rooted: bool,
    pub names: Seq<Seq<char>>,
}

impl View for DirPath {
    type V = DirPathView;

    open spec fn view(&self) -> DirPathView {
        DirPathView { rooted: self.rooted, names: self.names.deep_view() }
    }
}

impl DeepView for DirPath {
    type V = DirPathView;

    open spec fn deep_view(&self) -> DirPathView {
        self@
    }
}

impl DirPathView {
    /// The path without its last name; `None` for the root and for the
    /// empty path, which have no name to drop.
    pub open spec fn parent(self) -> Option<DirPathView> {
        if self.names.len() == 0 {
            None
        } else {
            Some(DirPathView { rooted: self.rooted, names: self.names.drop_last() })
        }
    }

    /// The name under which the path is shown in the browser: its last
    /// name, or `/` where it has none or ends in `.` or `..`.
    pub open spec fn node_name(self) -> Seq<char> {
        if self.names.len() == 0 || self.names.last() == "."@ || self.names.last() == ".."@ {
            "/"@
        } else {
            self.names.last()
        }
    }
}

/// An entry of a directory as the file system lists it: its path, and
/// whether it is a directory itself.
#[derive(Clone, Debug, PartialEq, Eq)]
pub struct Listed {
    pub path: String,
    pub is_dir: bool,
}

/// The paths of the entries that are not directories, in the listing's
/// order.
pub open spec fn files_of(listing: Seq<Listed>) -> Seq<Seq<char>>
    decreases listing.len(),
{
    if listing.len() == 0 {
        Seq::empty()
    } else if listing.last().is_dir {
        files_of(listing.drop_last())
    } else {
        files_of(listing.drop_last()).push(listing.last().path@)
    }
}

impl DirPath {
    /// The path of the first `count` names.
    fn prefix(&self, count: usize) -> (path: DirPath)
        requires
            count <= self.names.len(),
        ensures
            path@ == (DirPathView {
                rooted: self.rooted,
                names: self@.names.subrange(0, count as int),
            }),
    {
        let mut names: Vec<String> = Vec::new();
        let mut i: usize = 0;
        while i < count
            invariant
                0 <= i <= count <= self.names.len(),
                names.deep_view() == self.names.deep_view().subrange(0, i as int),
            decreases count - i,
        {
            let ghost before = names.deep_view();
            names.push(self.names[i].clone());
            assert(names.deep_view() =~= before.push(self.names[i as int].deep_view()));
            i += 1;
        }
        DirPath { rooted: self.rooted, names }
    }

    /// The name under which the path is shown in the browser.
    pub fn node_name(&self) -> (name: String)
        ensures
            name@ == self@.node_name(),
    {
        let count = self.names.len();
        if count == 0 {
            return "/".to_owned();
        }
        let last = &self.names[count - 1];
        assert(self@.names.last() == last@);
        if *last == ".".to_owned() || *last == "..".to_owned() {
            "/".to_owned()
        } else {
            last.clone()
        }
    }

    /// The path without its last name, if it has one.
    pub fn parent(&self) -> (parent: Option<DirPath>)
        ensures
            parent.deep_view() == self@.parent(),
    {
        let count = self.names.len();
        if count == 0 {
            None
        } else {
            let parent = self.prefix(count - 1);
            assert(self@.names.subrange(0, count - 1) =~= self@.names.drop_last());
            Some(parent)
        }
    }
}

/// The state of the library browser.
pub struct MainActivity {
    pub path: DirPath,
}

impl MainActivity {
    /// Opens the browser at `path`.
    pub fn new(path: DirPath) -> (activity: MainActivity)
        ensures
            activity.path == path,
    {
        MainActivity { path }
    }

    /// Moves the browser to `path`.
    pub fn scan_dir(&mut self, path: DirPath)
        ensures
            final(self).path == path,
    {
        self.path = path;
    }

    /// The files of a directory: the paths of the listed entries that are
    /// not directories, in the listing's order.
    pub fn dir_children(listing: &Vec<Listed>) -> (children: Vec<String>)
        ensures
            children.deep_view() == files_of(listing@),
    {
        let mut children: Vec<String> = Vec::new();
        let mut i: usize = 0;
        assert(listing@.subrange(0, 0) =~= Seq::<Listed>::empty());
        assert(children.deep_view() =~= files_of(listing@.subrange(0, 0)));
        while i < listing.len()
            invariant
                0 <= i <= listing.len(),
                children.deep_view() == files_of(listing@.subrange(0, i as int)),
            decreases listing.len() - i,
        {
            let ghost before = children.deep_view();
            let ghost next = listing@.subrange(0, i + 1);
            assert(next.drop_last() =~= listing@.subrange(0, i as int));
            assert(next.last() == listing@[i as int]);
            if !listing[i].is_dir {
                children.push(listing[i].path.clone());
                assert(children.deep_view() =~= before.push(listing@[i as int].path@));
            }
            i += 1;
        }
        assert(listing@.subrange(0, i as int) =~= listing@);
        children
    }

    /// The directory above the one shown, if there is one.
    pub fn upper_dir(&self) -> (parent: Option<DirPath>)
        ensures
            parent.deep_view() == self.path@.parent(),
    {
        self.path.parent()
    }
}

/// How a download stands.
#[derive(Clone, Copy, Debug, PartialEq, Eq, Structural)]
pub enum TransferState {
    Running,
    Completed,
    ErrDownload,
}

/// How the downloader ended.
#[derive(Clone, Copy, Debug, PartialEq, Eq, Structural)]
pub enum ResultType {
    Success,
    IoError,
    Failure,
}

/// An argument of the downloader: a flag, with its value if it takes one.
#[derive(Clone, Debug, PartialEq, Eq)]
pub struct Arg {
    pub flag: String,
    pub value: Option<String>,
}

impl View for Arg {
    type V = (Seq<char>, Option<Seq<char>>);

    open spec fn view(&self) -> (Seq<char>, Option<Seq<char>>) {
        (self.flag@, self.value.deep_view())
    }
}

impl DeepView for Arg {
    type V = (Seq<char>, Option<Seq<char>>);

    open spec fn deep_view(&self) -> (Seq<char>, Option<Seq<char>>) {
        self@
    }
}

/// The arguments of every download: the audio as mp3, with metadata and
/// thumbnail, artist and title taken from the title, subtitles as lyrics,
/// the file named by the title.
pub open spec fn download_args_spec() -> Seq<(Seq<char>, Option<Seq<char>>)> {
    seq![
        ("--extract-audio"@, None),
        ("--audio-format"@, Some("mp3"@)),
        ("--add-metadata"@, None),
        ("--embed-thumbnail"@, None),
        ("--metadata-from-title"@, Some("%(artist) - %(title)s"@)),
        ("--write-sub"@, None),
        ("--all-subs"@, None),
        ("--convert-subs"@, Some("lrc"@)),
        ("--output"@, Some("%(title).90s.%(ext)s"@)),
    ]
}

/// Where a download goes: the entry selected in the browser if it is a
/// directory, else the directory that holds it, which a root or an empty
/// path lacks. With nothing selected it goes to the directory `abc`.
pub open spec fn download_dir_spec(selected: Option<(DirPathView, bool)>) -> Option<DirPathView> {
    match selected {
        Some((path, is_dir)) => if is_dir {
            Some(path)
        } else {
            path.parent()
        },
        None => Some(DirPathView { rooted: false, names: seq!["abc"@] }),
    }
}

/// A download that is ready to run: where it goes, with which arguments,
/// and what it fetches.
#[derive(Clone, Debug, PartialEq, Eq)]
pub struct Download {
    pub dir: DirPath,
    pub args: Vec<Arg>,
    pub link: String,
}

/// What a `Download` holds.
pub struct DownloadView {
    pub dir: DirPathView,
    pub args: Seq<(Seq<char>, Option<Seq<char>>)>,
    pub link: Seq<char>,
}

impl View for Download {
    type V = DownloadView;

    open spec fn view(&self) -> DownloadView {
        DownloadView { dir: self.dir@, args: self.args.deep_view(), link: self.link@ }
    }
}

impl DeepView for Download {
    type V = DownloadView;

    open spec fn deep_view(&self) -> DownloadView {
        self@
    }
}

/// The download of `link` with this selection in the browser; `None` where
/// the selection leaves no directory to download into.
pub open spec fn download_of(link: Seq<char>, selected: Option<(DirPathView, bool)>) -> Option<
    DownloadView,
> {
    match download_dir_spec(selected) {
        Some(dir) => Some(DownloadView { dir, args: download_args_spec(), link }),
        None => None,
    }
}

fn flag(name: &str) -> (arg: Arg)
    ensures
        arg@ == (name@, None::<Seq<char>>),
{
    Arg { flag: name.to_owned(), value: None }
}

fn flag_with(name: &str, value: &str) -> (arg: Arg)
    ensures
        arg@ == (name@, Some(value@)),
{
    Arg { flag: name.to_owned(), value: Some(value.to_owned()) }
}

impl MainActivity {
    /// The arguments that the downloader is started with.
    pub fn download_args() -> (args: Vec<Arg>)
        ensures
            args.deep_view() == download_args_spec(),
    {
        let mut args: Vec<Arg> = Vec::new();
        args.push(flag("--extract-audio"));
        args.push(flag_with("--audio-format", "mp3"));
        args.push(flag("--add-metadata"));
        args.push(flag("--embed-thumbnail"));
        args.push(flag_with("--metadata-from-title", "%(artist) - %(title)s"));
        args.push(flag("--write-sub"));
        args.push(flag("--all-subs"));
        args.push(flag_with("--convert-subs", "lrc"));
        args.push(flag_with("--output", "%(title).90s.%(ext)s"));
        assert(args.deep_view() =~= download_args_spec());
        args
    }

    /// Decides where a download goes; `selected` is the entry selected in
    /// the browser, with whether it is a directory.
    pub fn download_dir(selected: Option<(&DirPath, bool)>) -> (dir: Option<DirPath>)
        ensures
            dir.deep_view() == download_dir_spec(
                match selected {
                    Some((path, is_dir)) => Some((path@, is_dir)),
                    None => None,
                },
            ),
    {
        match selected {
            Some((path, is_dir)) => if is_dir {
                let whole = path.prefix(path.names.len());
                assert(path@.names.subrange(0, path@.names.len() as int) =~= path@.names);
                Some(whole)
            } else {
                path.parent()
            },
            None => {
                let mut names: Vec<String> = Vec::new();
                names.push("abc".to_owned());
                assert(names.deep_view() =~= seq!["abc"@]);
                Some(DirPath { rooted: false, names })
            },
        }
    }

    /// Prepares the download of `link`; `selected` is the entry selected in
    /// the browser, with whether it is a directory.
    pub fn youtube_dl(link: String, selected: Option<(&DirPath, bool)>) -> (download: Option<
        Download,
    >)
        ensures
            download.deep_view() == download_of(
                link@,
                match selected {
                    Some((path, is_dir)) => Some((path@, is_dir)),
                    None => None,
                },
            ),
    {
        match Self::download_dir(selected) {
            Some(dir) => Some(Download { dir, args: Self::download_args(), link }),
            None => None,
        }
    }

    /// The state that a finished download leaves.
    pub fn transfer_state(result: ResultType) -> (state: TransferState)
        ensures
            state == (if result == ResultType::Success {
                TransferState::Completed
            } else {
                TransferState::ErrDownload
            }),
    {
        match result {
            ResultType::Success => TransferState::Completed,
            ResultType::IoError | ResultType::Failure => TransferState::ErrDownload,
        }
    }
}

} // verus!
