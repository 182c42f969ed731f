//! The files beside a mount point that its users coordinate through.
//!
//! All of them live in the directory that holds the mount point, never inside it: what is inside
//! is served by the sidecar, and coordinating through it would route every access through the
//! process that is being coordinated.

use vstd::prelude::*;

use crate::path;
use crate::path::{base_name, display_text, join_paths, parent_dir};
use crate::pidfile::Family;

verus! {

/// The ending of the name of the lock file.
pub const LOCK_FILENAME: &'static str = ".rattler-fs.lock";

/// The ending of the name of the pid file.
pub const PID_FILENAME: &'static str = ".rattler-fs.pid";

/// The ending of the name of the overlay directory.
pub const OVERLAY_DIRNAME: &'static str = ".rattler-fs-overlay";

/// The name of the file beside `name` that ends in `suffix`.
pub open spec fn sibling_name(name: Seq<u8>, suffix: Seq<char>) -> Seq<u8> {
    vstd::utf8::encode_utf8(path::displayed(name) + suffix)
}

/// The path of the file beside `mount_point` whose name is that of the mount point with `suffix`
/// behind it.
pub open spec fn sibling(mount_point: Seq<u8>, suffix: Seq<char>) -> Seq<u8> {
    path::join(
        path::parent(mount_point)->0,
        sibling_name(path::file_name(mount_point)->0, suffix),
    )
}

/// The lock file of a mount point.
pub open spec fn lock_file_of(mount_point: Seq<u8>) -> Seq<u8> {
    sibling(mount_point, LOCK_FILENAME@)
}

/// The pid file of a mount point.
pub open spec fn pid_file_of(mount_point: Seq<u8>) -> Seq<u8> {
    sibling(mount_point, PID_FILENAME@)
}

/// The overlay directory of a mount point.
pub open spec fn overlay_of(mount_point: Seq<u8>) -> Seq<u8> {
    sibling(mount_point, OVERLAY_DIRNAME@)
}

/// Encoding one text behind another gives one encoding behind the other.
proof fn lemma_encode_concat(a: Seq<char>, b: Seq<char>)
    ensures
        vstd::utf8::encode_utf8(a + b) == vstd::utf8::encode_utf8(a) + vstd::utf8::encode_utf8(b),
    decreases a.len(),
{
    if a.len() == 0 {
        assert(a + b =~= b);
    } else {
        lemma_encode_concat(a.drop_first(), b);
        assert((a + b).drop_first() =~= a.drop_first() + b);
    }
}

/// The encoding of a text without `/` has no separator in it.
proof fn lemma_encode_keeps_out_separators(s: Seq<char>)
    requires
        !s.contains('/'),
    ensures
        forall|i: int|
            0 <= i < vstd::utf8::encode_utf8(s).len() ==> vstd::utf8::encode_utf8(s)[i]
                != path::SEPARATOR,
    decreases s.len(),
{
    if s.len() > 0 {
        let rest = s.drop_first();
        assert forall|c: char| rest.contains(c) implies s.contains(c) by {
            let i = choose|i: int| 0 <= i < rest.len() && rest[i] == c;
            assert(s[i + 1] == c);
        }
        lemma_encode_keeps_out_separators(rest);
        let first = s[0];
        let c = first as u32;
        assert(first != '/');
        vstd::utf8::char_is_scalar(first);
        vstd::utf8::char_u32_cast(first, c);
        assert(c == 47 ==> false) by {
            if c == 47 {
                assert(c as char == '/');
            }
        }
        if c <= 0x7f {
            assert((c & 0x7F) as u8 != 47) by (bit_vector)
                requires
                    c != 47,
                    c <= 0x7f,
            ;
        }
        assert(0xC0 | ((c >> 6) & 0x1F) as u8 >= 0x80) by (bit_vector);
        assert(0xE0 | ((c >> 12) & 0x0F) as u8 >= 0x80) by (bit_vector);
        assert(0xF0 | ((c >> 18) & 0x7) as u8 >= 0x80) by (bit_vector);
        assert(0x80 | (c & 0x3F) as u8 >= 0x80) by (bit_vector);
        assert(0x80 | ((c >> 6) & 0x3F) as u8 >= 0x80) by (bit_vector);
        assert(0x80 | ((c >> 12) & 0x3F) as u8 >= 0x80) by (bit_vector);
        let head = vstd::utf8::encode_scalar(c);
        assert(forall|i: int| 0 <= i < head.len() ==> head[i] != path::SEPARATOR);
        let tail = vstd::utf8::encode_utf8(rest);
        assert(vstd::utf8::encode_utf8(s) == head + tail);
        assert forall|i: int| 0 <= i < (head + tail).len() implies (head + tail)[i]
            != path::SEPARATOR by {
            if i >= head.len() {
                assert((head + tail)[i] == tail[i - head.len()]);
            }
        }
    }
}

/// A text with `/` in it has a separator in its encoding.
proof fn lemma_encode_shows_separators(s: Seq<char>)
    requires
        s.contains('/'),
    ensures
        vstd::utf8::encode_utf8(s).contains(path::SEPARATOR),
    decreases s.len(),
{
    let k = choose|k: int| 0 <= k < s.len() && s[k] == '/';
    let head = vstd::utf8::encode_scalar(s[0] as u32);
    let tail = vstd::utf8::encode_utf8(s.drop_first());
    assert(vstd::utf8::encode_utf8(s) == head + tail);
    if k == 0 {
        let c = '/' as u32;
        assert((47u32 & 0x7F) as u8 == 47) by (bit_vector);
        assert((head + tail)[0] == path::SEPARATOR);
    } else {
        assert(s.drop_first()[k - 1] == '/');
        lemma_encode_shows_separators(s.drop_first());
        let i = choose|i: int| 0 <= i < tail.len() && tail[i] == path::SEPARATOR;
        assert((head + tail)[head.len() + i] == path::SEPARATOR);
    }
}

/// The facts about the three endings that the contracts rest on.
pub proof fn lemma_endings_are_suffixes()
    ensures
        is_suffix(LOCK_FILENAME@),
        is_suffix(PID_FILENAME@),
        is_suffix(OVERLAY_DIRNAME@),
        LOCK_FILENAME@.last() == 'k',
        PID_FILENAME@.last() == 'd',
        OVERLAY_DIRNAME@.last() == 'y',
{
    reveal_strlit(".rattler-fs.lock");
    reveal_strlit(".rattler-fs.pid");
    reveal_strlit(".rattler-fs-overlay");
}

/// Text that can be put behind a name: ASCII, three characters or more, and no `/`.
pub open spec fn is_suffix(suffix: Seq<char>) -> bool {
    &&& vstd::utf8::is_ascii_chars(suffix)
    &&& suffix.len() > 2
    &&& !suffix.contains('/')
}

/// A file beside a mount point has the parent of the mount point and a name of its own.
proof fn lemma_sibling(mount_point: Seq<u8>, suffix: Seq<char>)
    requires
        path::file_name(mount_point) is Some,
        is_suffix(suffix),
        !path::displayed(path::file_name(mount_point)->0).contains('/'),
    ensures
        path::parent(sibling(mount_point, suffix)) == path::parent(mount_point),
        path::file_name(sibling(mount_point, suffix)) == Some(
            sibling_name(path::file_name(mount_point)->0, suffix),
        ),
        sibling(mount_point, suffix) != mount_point,
{
    let name = path::file_name(mount_point)->0;
    let shown = path::displayed(name);
    let own = sibling_name(name, suffix);
    let tail = vstd::utf8::encode_utf8(suffix);
    path::lemma_file_name_is_name(mount_point);
    path::law_parent_and_file_name_part_a_path(mount_point);
    assert(!(shown + suffix).contains('/'));
    lemma_encode_keeps_out_separators(shown + suffix);
    lemma_encode_concat(shown, suffix);
    vstd::utf8::is_ascii_chars_encode_utf8(suffix);
    assert(own.len() > 2);
    assert(path::is_name(own));
    path::law_join_is_undone_by_parent_and_file_name(path::parent(mount_point)->0, own);
    if own == name {
        vstd::utf8::encode_utf8_valid_utf8(shown + suffix);
        vstd::utf8::decode_utf8_encode_utf8(name);
        assert(own == name + tail);
        assert(own.len() > name.len());
    }
}

/// Builds the path of the file beside `mount_point` that ends in `suffix`.
fn sibling_path(mount_point: &[u8], suffix: &str) -> (sibling_bytes: Vec<u8>)
    requires
        path::file_name(mount_point@) is Some,
        is_suffix(suffix@),
    ensures
        sibling_bytes@ == sibling(mount_point@, suffix@),
        path::parent(sibling_bytes@) == path::parent(mount_point@),
        path::file_name(sibling_bytes@) == Some(
            sibling_name(path::file_name(mount_point@)->0, suffix@),
        ),
        sibling_bytes@ != mount_point@,
{
    proof {
        path::lemma_file_name_is_name(mount_point@);
    }
    match (parent_dir(mount_point), base_name(mount_point)) {
        (Some(dir), Some(name)) => {
            let mut file = display_text(name.as_slice());
            proof {
                assert(!name@.contains(path::SEPARATOR));
                lemma_sibling(mount_point@, suffix@);
            }
            file.append(suffix);
            join_paths(dir.as_slice(), file.as_str().as_bytes())
        },
        _ => {
            assert(false);
            Vec::new()
        },
    }
}

/// Derives the paths of the lock file and of the pid file of a mount point.
///
/// Both live in the directory that holds the mount point, and their names start with its name.
/// The mount point needs a file name: the root, `..` and the empty path have none.
pub fn coordination_paths(mount_point: &[u8]) -> (paths: (Vec<u8>, Vec<u8>))
    requires
        path::file_name(mount_point@) is Some,
    ensures
        paths.0@ == sibling(mount_point@, LOCK_FILENAME@),
        paths.1@ == sibling(mount_point@, PID_FILENAME@),
        path::parent(paths.0@) == path::parent(mount_point@),
        path::parent(paths.1@) == path::parent(mount_point@),
        path::file_name(paths.0@) == Some(
            sibling_name(path::file_name(mount_point@)->0, LOCK_FILENAME@),
        ),
        path::file_name(paths.1@) == Some(
            sibling_name(path::file_name(mount_point@)->0, PID_FILENAME@),
        ),
        paths.0@ != mount_point@,
        paths.1@ != mount_point@,
        paths.0@ != paths.1@,
        paths.0@ == lock_file_of(mount_point@),
        paths.1@ == pid_file_of(mount_point@),
{
    proof {
        lemma_endings_are_suffixes();
        law_files_of_different_kinds_never_meet(mount_point@, mount_point@);
    }
    (sibling_path(mount_point, LOCK_FILENAME), sibling_path(mount_point, PID_FILENAME))
}

/// Who opens a lock file.
#[derive(Clone, Copy, Debug, PartialEq, Eq, Structural)]
pub enum LockUser {
    /// A client, which locks it to use the mount.
    Client,
    /// The sidecar, which looks whether it is locked.
    Sidecar,
}

/// How a file is opened.
#[derive(Clone, Copy, Debug, PartialEq, Eq, Structural)]
pub struct FileAccess {
    /// Whether it can be read from.
    pub read: bool,
    /// Whether it can be written to.
    pub write: bool,
    /// Whether it is created if it is missing.
    pub create: bool,
    /// Whether it is emptied.
    pub truncate: bool,
}

/// How `user` opens a lock file. A client needs the right to write where it may create the file,
/// and the right to read where locking asks for it; the sidecar takes the file as it is.
pub open spec fn access_of(user: LockUser, family: Family) -> FileAccess {
    match user {
        LockUser::Client => FileAccess {
            read: family is Windows,
            write: true,
            create: true,
            truncate: false,
        },
        LockUser::Sidecar => FileAccess {
            read: true,
            write: false,
            create: false,
            truncate: false,
        },
    }
}

/// Says how a lock file is opened.
pub fn lock_file_access(user: LockUser, family: Family) -> (access: FileAccess)
    ensures
        access == access_of(user, family),
{
    match user {
        LockUser::Client => {
            let read = match family {
                Family::Unix => false,
                Family::Windows => true,
            };
            FileAccess { read, write: true, create: true, truncate: false }
        },
        LockUser::Sidecar => FileAccess {
            read: true,
            write: false,
            create: false,
            truncate: false,
        },
    }
}

/// A share in a mounted environment.
///
/// As long as its holder keeps a shared lock on the lock file, the sidecar counts it as a client
/// and stays. To give the share up is to close that file and nothing else: the sidecar ends by
/// itself. The view of a share is the path of the lock file.
#[derive(Debug, PartialEq, Eq)]
pub struct MountGuard {
    lock_path: Vec<u8>,
}

impl View for MountGuard {
    type V = Seq<u8>;

    closed spec fn view(&self) -> Seq<u8> {
        self.lock_path@
    }
}

impl MountGuard {
    /// A share that is held by a lock on the file at `lock_path`.
    pub(crate) fn new(lock_path: Vec<u8>) -> (guard: MountGuard)
        ensures
            guard@ == lock_path@,
    {
        MountGuard { lock_path }
    }

    /// The lock file that the shared lock is held on.
    pub fn lock_path(&self) -> (lock_path: &[u8])
        ensures
            lock_path@ == self@,
    {
        self.lock_path.as_slice()
    }

    /// Derives the path of the overlay directory of an environment.
    ///
    /// It lives in the directory that holds `env_dir`, not inside the mount, so that writes to
    /// it are not routed through the sidecar.
    pub fn overlay_dir(env_dir: &[u8]) -> (overlay: Vec<u8>)
        requires
            path::file_name(env_dir@) is Some,
        ensures
            overlay@ == sibling(env_dir@, OVERLAY_DIRNAME@),
            path::parent(overlay@) == path::parent(env_dir@),
            path::file_name(overlay@) == Some(
                sibling_name(path::file_name(env_dir@)->0, OVERLAY_DIRNAME@),
            ),
            overlay@ != env_dir@,
            overlay@ == overlay_of(env_dir@),
    {
        proof {
            lemma_endings_are_suffixes();
        }
        sibling_path(env_dir, OVERLAY_DIRNAME)
    }
}

// ---------------------------------------------------------------------------
// Laws
// ---------------------------------------------------------------------------

/// What is in a lock file stays in it: nobody empties it when it is opened, and the sidecar has no
/// right to write to it at all.
pub proof fn law_a_lock_file_is_not_emptied(user: LockUser, family: Family)
    ensures
        !access_of(user, family).truncate,
        user is Sidecar ==> !access_of(user, family).write && !access_of(user, family).create,
{
}

/// The last byte of the path of a file beside a mount point is the last character of its ending.
proof fn lemma_sibling_ends_in_suffix(mount_point: Seq<u8>, suffix: Seq<char>)
    requires
        is_suffix(suffix),
    ensures
        sibling(mount_point, suffix).len() > 0,
        sibling(mount_point, suffix).last() == suffix.last() as u8,
{
    let shown = path::displayed(path::file_name(mount_point)->0);
    lemma_encode_concat(shown, suffix);
    vstd::utf8::is_ascii_chars_encode_utf8(suffix);
    let tail = vstd::utf8::encode_utf8(suffix);
    assert(tail[suffix.len() - 1] == suffix[suffix.len() - 1] as u8);
}

/// The lock files, the pid files and the overlay directories of any two environments are
/// different files: none of them serves two purposes.
pub proof fn law_files_of_different_kinds_never_meet(a: Seq<u8>, b: Seq<u8>)
    ensures
        sibling(a, LOCK_FILENAME@) != sibling(b, PID_FILENAME@),
        sibling(a, LOCK_FILENAME@) != sibling(b, OVERLAY_DIRNAME@),
        sibling(a, PID_FILENAME@) != sibling(b, OVERLAY_DIRNAME@),
{
    lemma_endings_are_suffixes();
    lemma_sibling_ends_in_suffix(a, LOCK_FILENAME@);
    lemma_sibling_ends_in_suffix(a, PID_FILENAME@);
    lemma_sibling_ends_in_suffix(b, PID_FILENAME@);
    lemma_sibling_ends_in_suffix(b, OVERLAY_DIRNAME@);
}

/// Decoding a name gives no `/`.
proof fn lemma_valid_name_shows_no_separator(name: Seq<u8>)
    requires
        path::is_name(name),
        vstd::utf8::valid_utf8(name),
    ensures
        !path::displayed(name).contains('/'),
{
    vstd::utf8::decode_utf8_encode_utf8(name);
    if path::displayed(name).contains('/') {
        lemma_encode_shows_separators(path::displayed(name));
    }
}

/// Beside a mount point whose name is valid UTF-8 stand files whose names are that name, byte for
/// byte, with the ending behind it.
pub proof fn law_names_start_with_the_name_of_the_mount_point(
    mount_point: Seq<u8>,
    suffix: Seq<char>,
)
    requires
        path::file_name(mount_point) is Some,
        vstd::utf8::valid_utf8(path::file_name(mount_point)->0),
        is_suffix(suffix),
    ensures
        path::parent(sibling(mount_point, suffix)) == path::parent(mount_point),
        path::file_name(sibling(mount_point, suffix)) == Some(
            path::file_name(mount_point)->0 + vstd::utf8::encode_utf8(suffix),
        ),
{
    let name = path::file_name(mount_point)->0;
    path::lemma_file_name_is_name(mount_point);
    lemma_valid_name_shows_no_separator(name);
    lemma_sibling(mount_point, suffix);
    lemma_encode_concat(path::displayed(name), suffix);
    vstd::utf8::decode_utf8_encode_utf8(name);
}

/// Two environments whose names are valid UTF-8 share a coordination file only if they have the
/// same parent directory and the same name.
pub proof fn law_shared_files_mean_one_mount_point(a: Seq<u8>, b: Seq<u8>, suffix: Seq<char>)
    requires
        path::file_name(a) is Some,
        path::file_name(b) is Some,
        vstd::utf8::valid_utf8(path::file_name(a)->0),
        vstd::utf8::valid_utf8(path::file_name(b)->0),
        is_suffix(suffix),
        sibling(a, suffix) == sibling(b, suffix),
    ensures
        path::parent(a) == path::parent(b),
        path::file_name(a) == path::file_name(b),
{
    law_names_start_with_the_name_of_the_mount_point(a, suffix);
    law_names_start_with_the_name_of_the_mount_point(b, suffix);
    let tail = vstd::utf8::encode_utf8(suffix);
    let x = path::file_name(a)->0;
    let y = path::file_name(b)->0;
    assert(x + tail == y + tail);
    assert(x =~= (x + tail).take(x.len() as int));
    assert(y =~= (y + tail).take(y.len() as int));
    assert((x + tail).len() == (y + tail).len());
}

/// The files of a mount point stand in the directory that holds it, under its name with their
/// endings behind it, whatever the path is, as long as its name is valid UTF-8.
pub proof fn law_the_files_of_a_mount_point_stand_beside_it(mount_point: Seq<u8>)
    requires
        path::file_name(mount_point) is Some,
        vstd::utf8::valid_utf8(path::file_name(mount_point)->0),
    ensures
        path::parent(lock_file_of(mount_point)) == path::parent(mount_point),
        path::file_name(lock_file_of(mount_point)) == Some(
            path::file_name(mount_point)->0 + vstd::utf8::encode_utf8(".rattler-fs.lock"@),
        ),
        path::parent(pid_file_of(mount_point)) == path::parent(mount_point),
        path::file_name(pid_file_of(mount_point)) == Some(
            path::file_name(mount_point)->0 + vstd::utf8::encode_utf8(".rattler-fs.pid"@),
        ),
        path::parent(overlay_of(mount_point)) == path::parent(mount_point),
        path::file_name(overlay_of(mount_point)) == Some(
            path::file_name(mount_point)->0 + vstd::utf8::encode_utf8(".rattler-fs-overlay"@),
        ),
{
    lemma_endings_are_suffixes();
    law_names_start_with_the_name_of_the_mount_point(mount_point, LOCK_FILENAME@);
    law_names_start_with_the_name_of_the_mount_point(mount_point, PID_FILENAME@);
    law_names_start_with_the_name_of_the_mount_point(mount_point, OVERLAY_DIRNAME@);
}

/// The name of a file beside a mount point is the name of the mount point, as it is shown, with the
/// ending behind it, also where that name is not valid UTF-8; what is shown of valid UTF-8 gives
/// its bytes back.
pub proof fn law_names_are_shown_before_they_get_their_endings(name: Seq<u8>, suffix: Seq<char>)
    ensures
        sibling_name(name, suffix) == vstd::utf8::encode_utf8(path::displayed(name))
            + vstd::utf8::encode_utf8(suffix),
        vstd::utf8::valid_utf8(name) ==> vstd::utf8::encode_utf8(path::displayed(name)) == name,
        !vstd::utf8::valid_utf8(name) ==> path::displayed(name) == path::lossy_text(name),
{
    lemma_encode_concat(path::displayed(name), suffix);
    if vstd::utf8::valid_utf8(name) {
        vstd::utf8::decode_utf8_encode_utf8(name);
    }
}

/// The files of a mount point lie where the directory that holds it says, byte for byte: the path
/// of each begins with the parent of the mount point and ends in its name, with one separator
/// between them at most.
pub proof fn law_the_files_of_a_mount_point_begin_with_its_parent(
    mount_point: Seq<u8>,
    suffix: Seq<char>,
)
    requires
        path::file_name(mount_point) is Some,
        vstd::utf8::valid_utf8(path::file_name(mount_point)->0),
        is_suffix(suffix),
    ensures
        ({
            let parent = path::parent(mount_point)->0;
            let name = path::file_name(mount_point)->0 + vstd::utf8::encode_utf8(suffix);
            let file = sibling(mount_point, suffix);
            if parent.len() == 0 || parent.last() == path::SEPARATOR {
                file == parent + name
            } else {
                file == parent + seq![path::SEPARATOR] + name
            }
        }),
{
    let parent = path::parent(mount_point)->0;
    let own = path::file_name(mount_point)->0;
    let name = own + vstd::utf8::encode_utf8(suffix);
    path::lemma_file_name_is_name(mount_point);
    law_names_are_shown_before_they_get_their_endings(own, suffix);
    assert(name[0] == own[0]);
    assert(parent.push(path::SEPARATOR) =~= parent + seq![path::SEPARATOR]);
}

/// A client may create the lock file and write to it, and the sidecar may read it.
pub proof fn law_a_lock_file_can_be_opened(family: Family)
    ensures
        access_of(LockUser::Client, family).create,
        access_of(LockUser::Client, family).write,
        family is Windows ==> access_of(LockUser::Client, family).read,
        access_of(LockUser::Sidecar, family).read,
{
}

} // verus!
