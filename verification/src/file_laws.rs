//! What the steps on the files promise together.

use crate::error::{StepFailure, StoreError};
use crate::files;
use crate::files::{FileLoad, SaveStep, WriteStep};
use crate::laws;
use crate::laws::Attempt;
use crate::paths;
use crate::types;
use crate::types::{AccountsStore, StoreView};
use crate::writer;
use crate::writer::CopiesView;
use std::path::PathBuf;
use vstd::prelude::*;

verus! {

// ---- The accounts file ----

/// A file: its bytes, whether only its owner may use it, and whether it was
/// forced to the disk.
pub struct FileView {
    pub content: Seq<u8>,
    pub private: bool,
    pub synced: bool,
}

/// The accounts file and the temporary file beside it.
pub struct DiskView {
    pub target: Option<FileView>,
    pub temporary: Option<FileView>,
}

/// What a step that succeeds does to the files when `content` is written.
pub open spec fn after_step(disk: DiskView, step: WriteStep, content: Seq<u8>) -> DiskView {
    match step {
        WriteStep::CreateTemporary => DiskView {
            temporary: Some(FileView { content: Seq::empty(), private: false, synced: false }),
            ..disk
        },
        WriteStep::RestrictTemporary => DiskView {
            temporary: Some(FileView { private: true, ..disk.temporary->0 }),
            ..disk
        },
        WriteStep::WriteTemporary => DiskView {
            temporary: Some(FileView { content, synced: false, ..disk.temporary->0 }),
            ..disk
        },
        WriteStep::SyncTemporary => DiskView {
            temporary: Some(FileView { synced: true, ..disk.temporary->0 }),
            ..disk
        },
        WriteStep::Replace => DiskView { target: disk.temporary, temporary: None },
        _ => disk,
    }
}

/// The step that comes after `n` that succeeded.
pub open spec fn nth_write_step(unix: bool, n: nat) -> WriteStep
    decreases n,
{
    if n == 0 {
        WriteStep::CreateDirectory
    } else {
        files::write_step_after(nth_write_step(unix, (n - 1) as nat), unix)
    }
}

/// The files after the first `n` steps succeeded.
pub open spec fn after_steps(disk: DiskView, unix: bool, content: Seq<u8>, n: nat) -> DiskView
    decreases n,
{
    if n == 0 {
        disk
    } else {
        let before = (n - 1) as nat;
        after_step(
            after_steps(disk, unix, content, before),
            nth_write_step(unix, before),
            content,
        )
    }
}

/// A step comes before the accounts file is replaced, or replaces it.
pub open spec fn target_untouched(step: WriteStep) -> bool {
    step != WriteStep::SyncDirectory && step != WriteStep::Done
}

/// Wherever a write stops, the accounts file is either as it was or complete:
/// it then holds all new bytes, which were forced to the disk before, and on
/// Unix only its owner may use it.
pub proof fn law_accounts_file_is_replaced_whole(
    disk: DiskView,
    unix: bool,
    content: Seq<u8>,
    n: nat,
)
    ensures
        if target_untouched(nth_write_step(unix, n)) {
            after_steps(disk, unix, content, n).target == disk.target
        } else {
            after_steps(disk, unix, content, n).target == Some(
                FileView { content, private: unix, synced: true },
            )
        },
{
    reveal_with_fuel(nth_write_step, 9);
    reveal_with_fuel(after_steps, 9);
    if n > 8 {
        lemma_done_stays(disk, unix, content, n);
    }
}

proof fn lemma_done_stays(disk: DiskView, unix: bool, content: Seq<u8>, n: nat)
    requires
        n >= 8,
    ensures
        nth_write_step(unix, n) == WriteStep::Done,
        after_steps(disk, unix, content, n) == after_steps(disk, unix, content, 8),
    decreases n,
{
    reveal_with_fuel(nth_write_step, 9);
    if n > 8 {
        lemma_done_stays(disk, unix, content, (n - 1) as nat);
    }
}

/// A write that nothing stops is done after at most eight steps.
pub proof fn law_write_ends(unix: bool, n: nat)
    requires
        n >= 8,
    ensures
        nth_write_step(unix, n) == WriteStep::Done,
{
    let nothing = DiskView { target: None, temporary: None };
    lemma_done_stays(nothing, unix, Seq::empty(), n);
}

/// A write goes through its steps in one order, and leaves out only setting the
/// permission bits and syncing the directory, and those only where the system is
/// not Unix.
pub proof fn law_write_steps_come_in_order(unix: bool, i: int)
    requires
        0 <= i < 8,
    ensures
        ({
            let order = seq![
                WriteStep::CreateDirectory,
                WriteStep::Serialize,
                WriteStep::CreateTemporary,
                WriteStep::RestrictTemporary,
                WriteStep::WriteTemporary,
                WriteStep::SyncTemporary,
                WriteStep::Replace,
                WriteStep::SyncDirectory,
                WriteStep::Done,
            ];
            let skipped = !unix && (order[i + 1] == WriteStep::RestrictTemporary || order[i + 1]
                == WriteStep::SyncDirectory);
            &&& !skipped ==> files::write_step_after(order[i], unix) == order[i + 1]
            &&& skipped ==> files::write_step_after(order[i], unix) == order[i + 2]
        }),
        files::write_step_after(WriteStep::Done, unix) == WriteStep::Done,
{
}

/// What reading the accounts file gives: an empty store where there is none, and
/// no store where it does not parse.
pub open spec fn stored(
    disk: DiskView,
    decode: spec_fn(Seq<u8>) -> Option<StoreView>,
) -> Option<StoreView> {
    match disk.target {
        Some(file) => decode(file.content),
        None => Some(types::empty_store()),
    }
}

/// The accounts file follows the writer's store, whatever the encoding: what
/// reading the file gives is the store before and after an update whose write is
/// stopped at a step, and where nothing stopped the write the file exists and
/// holds the new store. The one exception is a write that is stopped while the
/// directory is synced: the file then holds the new store, and the writer the old
/// one.
pub proof fn law_accounts_file_follows_the_store(
    encode: spec_fn(StoreView) -> Seq<u8>,
    decode: spec_fn(Seq<u8>) -> Option<StoreView>,
    copies: CopiesView,
    candidate: StoreView,
    locked: bool,
    disk: DiskView,
    unix: bool,
    n: nat,
)
    requires
        stored(disk, decode) == Some(copies.current),
        decode(encode(candidate)) == Some(candidate),
    ensures
        ({
            let step = nth_write_step(unix, n);
            let after = writer::copies_after(
                copies,
                Some(candidate),
                step == WriteStep::Done,
                locked,
            );
            let written = after_steps(disk, unix, encode(candidate), n);
            &&& step != WriteStep::SyncDirectory ==> stored(written, decode) == Some(after.current)
            &&& step == WriteStep::Done ==> {
                &&& written.target matches Some(file)
                &&& file.content == encode(candidate)
                &&& after.current == candidate
            }
            &&& target_untouched(step) ==> written.target == disk.target && after == copies
            &&& step == WriteStep::SyncDirectory ==> {
                &&& written.target matches Some(file)
                &&& file.content == encode(candidate)
                &&& after == copies
            }
        }),
{
    law_accounts_file_is_replaced_whole(disk, unix, encode(candidate), n);
}

/// An update, after how many steps its write to the accounts file is stopped, and
/// how taking the lock goes.
pub struct FileAttempt {
    pub update: spec_fn(StoreView) -> Option<StoreView>,
    pub steps: nat,
    pub locked: bool,
}

/// The attempt as the writer sees it: it is persisted where its write is done.
pub open spec fn as_attempt(attempt: FileAttempt, unix: bool) -> Attempt {
    Attempt {
        update: attempt.update,
        persisted: nth_write_step(unix, attempt.steps) == WriteStep::Done,
        locked: attempt.locked,
    }
}

/// The attempts as the writer sees them.
pub open spec fn as_attempts(attempts: Seq<FileAttempt>, unix: bool) -> Seq<Attempt> {
    attempts.map_values(|attempt: FileAttempt| as_attempt(attempt, unix))
}

/// The files after attempts, one at a time in their order.
pub open spec fn files_after(
    disk: DiskView,
    encode: spec_fn(StoreView) -> Seq<u8>,
    copies: CopiesView,
    unix: bool,
    attempts: Seq<FileAttempt>,
) -> DiskView
    decreases attempts.len(),
{
    if attempts.len() == 0 {
        disk
    } else {
        let front = attempts.drop_last();
        let before = files_after(disk, encode, copies, unix, front);
        let current = laws::after_attempts(copies, as_attempts(front, unix)).current;
        match (attempts.last().update)(current) {
            Some(candidate) => after_steps(
                before,
                unix,
                encode(candidate),
                attempts.last().steps,
            ),
            None => before,
        }
    }
}

/// None of the attempts makes an update: each fails on the store at its turn.
pub open spec fn no_update_made(copies: CopiesView, attempts: Seq<Attempt>) -> bool
    decreases attempts.len(),
{
    attempts.len() == 0 || {
        let front = attempts.drop_last();
        let current = laws::after_attempts(copies, front).current;
        no_update_made(copies, front) && (attempts.last().update)(current) is None
    }
}

/// After any number of updates, of which none is stopped while the directory is
/// synced, reading the accounts file gives the writer's store.
pub proof fn law_accounts_file_holds_every_update(
    encode: spec_fn(StoreView) -> Seq<u8>,
    decode: spec_fn(Seq<u8>) -> Option<StoreView>,
    copies: CopiesView,
    disk: DiskView,
    unix: bool,
    attempts: Seq<FileAttempt>,
)
    requires
        stored(disk, decode) == Some(copies.current),
        forall|store: StoreView| decode(#[trigger] encode(store)) == Some(store),
        forall|i: int|
            0 <= i < attempts.len() ==> nth_write_step(unix, (#[trigger] attempts[i]).steps)
                != WriteStep::SyncDirectory,
    ensures
        stored(files_after(disk, encode, copies, unix, attempts), decode) == Some(
            laws::after_attempts(copies, as_attempts(attempts, unix)).current,
        ),
    decreases attempts.len(),
{
    if attempts.len() > 0 {
        let front = attempts.drop_last();
        assert(forall|i: int| 0 <= i < front.len() ==> front[i] == attempts[i]);
        assert(attempts[attempts.len() - 1] == attempts.last());
        law_accounts_file_holds_every_update(encode, decode, copies, disk, unix, front);
        assert(as_attempts(attempts, unix).drop_last() =~= as_attempts(front, unix));
        let before = laws::after_attempts(copies, as_attempts(front, unix));
        match (attempts.last().update)(before.current) {
            Some(candidate) => {
                law_accounts_file_follows_the_store(
                    encode,
                    decode,
                    before,
                    candidate,
                    attempts.last().locked,
                    files_after(disk, encode, copies, unix, front),
                    unix,
                    attempts.last().steps,
                );
            },
            None => {},
        }
    }
}

/// Whatever the accounts file held before: after any number of updates that
/// nothing stops, it exists and holds the encoding of the writer's store, all of
/// it forced to the disk and on Unix private, or no update was made and the files
/// and both copies of the store are as they were.
pub proof fn law_unstopped_updates_reach_the_file(
    encode: spec_fn(StoreView) -> Seq<u8>,
    copies: CopiesView,
    disk: DiskView,
    unix: bool,
    attempts: Seq<FileAttempt>,
)
    requires
        forall|i: int|
            0 <= i < attempts.len() ==> nth_write_step(unix, (#[trigger] attempts[i]).steps)
                == WriteStep::Done,
    ensures
        ({
            let after = laws::after_attempts(copies, as_attempts(attempts, unix));
            let written = files_after(disk, encode, copies, unix, attempts);
            if no_update_made(copies, as_attempts(attempts, unix)) {
                after == copies && written == disk
            } else {
                written.target == Some(
                    FileView { content: encode(after.current), private: unix, synced: true },
                )
            }
        }),
    decreases attempts.len(),
{
    if attempts.len() > 0 {
        let front = attempts.drop_last();
        assert(forall|i: int| 0 <= i < front.len() ==> front[i] == attempts[i]);
        assert(attempts[attempts.len() - 1] == attempts.last());
        law_unstopped_updates_reach_the_file(encode, copies, disk, unix, front);
        assert(as_attempts(attempts, unix).drop_last() =~= as_attempts(front, unix));
        let before = laws::after_attempts(copies, as_attempts(front, unix));
        match (attempts.last().update)(before.current) {
            Some(candidate) => {
                law_accounts_file_is_replaced_whole(
                    files_after(disk, encode, copies, unix, front),
                    unix,
                    encode(candidate),
                    attempts.last().steps,
                );
            },
            None => {},
        }
    }
}

/// `load` is what a reader finds of a file: nothing where there is none, else
/// what the bytes decode to, unless the file cannot be read. `view` says what a
/// value that was read stands for.
pub open spec fn is_load_of<Content, V, E>(
    load: FileLoad<Content, E>,
    file: Option<FileView>,
    decode: spec_fn(Seq<u8>) -> Option<V>,
    view: spec_fn(Content) -> V,
) -> bool {
    match (load, file) {
        (FileLoad::Missing, None) => true,
        (FileLoad::Unreadable(_), Some(_)) => true,
        (FileLoad::Malformed(_), Some(file)) => decode(file.content) is None,
        (FileLoad::Parsed(content), Some(file)) => decode(file.content) == Some(view(content)),
        _ => false,
    }
}

/// Opening the store gives what the accounts file holds, and fails where the file
/// cannot be read or does not parse.
pub proof fn law_open_reads_the_stored_store<E>(
    decode: spec_fn(Seq<u8>) -> Option<StoreView>,
    disk: DiskView,
    path: Seq<char>,
    load: FileLoad<AccountsStore, E>,
    result: Result<AccountsStore, StepFailure<E>>,
)
    requires
        is_load_of(load, disk.target, decode, |store: AccountsStore| store@),
        files::is_store_read(path, load, result),
    ensures
        match result {
            Ok(store) => stored(disk, decode) == Some(store@),
            Err(_) => load is Unreadable || stored(disk, decode) is None,
        },
        load is Unreadable ==> result is Err,
{
}

// ---- The settings file ----

/// What a step that succeeds does to the settings file when `content` is written.
/// A file that was there before keeps its permissions until they are set.
pub open spec fn after_save_step(
    file: Option<FileView>,
    step: SaveStep,
    content: Seq<u8>,
) -> Option<FileView> {
    match step {
        SaveStep::Write => Some(
            FileView { content, private: file is Some && file->0.private, synced: false },
        ),
        SaveStep::Restrict => Some(FileView { private: true, ..file->0 }),
        _ => file,
    }
}

/// The step that comes after `n` that succeeded.
pub open spec fn nth_save_step(has_parent: bool, unix: bool, n: nat) -> SaveStep
    decreases n,
{
    if n == 0 {
        files::save_step_first(has_parent)
    } else {
        files::save_step_after(nth_save_step(has_parent, unix, (n - 1) as nat), unix)
    }
}

/// The settings file after the first `n` steps succeeded.
pub open spec fn after_save_steps(
    file: Option<FileView>,
    has_parent: bool,
    unix: bool,
    content: Seq<u8>,
    n: nat,
) -> Option<FileView>
    decreases n,
{
    if n == 0 {
        file
    } else {
        let before = (n - 1) as nat;
        after_save_step(
            after_save_steps(file, has_parent, unix, content, before),
            nth_save_step(has_parent, unix, before),
            content,
        )
    }
}

/// A save goes through its steps in one order. It leaves out only creating the
/// directory, where there is none to create, and setting the permission bits, where
/// the system is not Unix.
pub proof fn law_save_steps_come_in_order(has_parent: bool, unix: bool, i: int)
    requires
        0 <= i < 4,
    ensures
        ({
            let order = seq![
                SaveStep::CreateDirectory,
                SaveStep::Serialize,
                SaveStep::Write,
                SaveStep::Restrict,
                SaveStep::Done,
            ];
            let skipped = !unix && order[i + 1] == SaveStep::Restrict;
            &&& !skipped ==> files::save_step_after(order[i], unix) == order[i + 1]
            &&& skipped ==> files::save_step_after(order[i], unix) == order[i + 2]
            &&& has_parent ==> files::save_step_first(has_parent) == order[0]
            &&& !has_parent ==> files::save_step_first(has_parent) == order[1]
        }),
        files::save_step_after(SaveStep::Done, unix) == SaveStep::Done,
{
}

/// Until it is written the settings file is as it was; from then on it holds all
/// of the content, and once the save is done it is private on Unix.
pub proof fn law_settings_file_holds_the_content(
    file: Option<FileView>,
    has_parent: bool,
    unix: bool,
    content: Seq<u8>,
    n: nat,
)
    ensures
        ({
            let step = nth_save_step(has_parent, unix, n);
            let saved = after_save_steps(file, has_parent, unix, content, n);
            if step == SaveStep::Restrict || step == SaveStep::Done {
                &&& saved matches Some(f)
                &&& f.content == content
                &&& step == SaveStep::Done && unix ==> f.private
            } else {
                saved == file
            }
        }),
{
    reveal_with_fuel(nth_save_step, 5);
    reveal_with_fuel(after_save_steps, 5);
    if n > 4 {
        lemma_save_done_stays(file, has_parent, unix, content, n);
    }
}

proof fn lemma_save_done_stays(
    file: Option<FileView>,
    has_parent: bool,
    unix: bool,
    content: Seq<u8>,
    n: nat,
)
    requires
        n >= 4,
    ensures
        nth_save_step(has_parent, unix, n) == SaveStep::Done,
        after_save_steps(file, has_parent, unix, content, n) == after_save_steps(
            file,
            has_parent,
            unix,
            content,
            4,
        ),
    decreases n,
{
    reveal_with_fuel(nth_save_step, 5);
    if n > 4 {
        lemma_save_done_stays(file, has_parent, unix, content, (n - 1) as nat);
    }
}

/// A save that nothing stops is done after at most four steps.
pub proof fn law_save_ends(has_parent: bool, unix: bool, n: nat)
    requires
        n >= 4,
    ensures
        nth_save_step(has_parent, unix, n) == SaveStep::Done,
{
    lemma_save_done_stays(None, has_parent, unix, Seq::empty(), n);
}

/// Loading the settings gives the default ones where there is no file, what the
/// file holds where it can be read and parses, and a failure else.
pub proof fn law_settings_are_loaded_from_the_file<Settings, E>(
    decode: spec_fn(Seq<u8>) -> Option<Settings>,
    file: Option<FileView>,
    path: Seq<char>,
    load: FileLoad<Settings, E>,
    defaults: Settings,
    result: Result<Settings, StepFailure<E>>,
)
    requires
        is_load_of(load, file, decode, |settings: Settings| settings),
        files::is_settings_read(path, load, defaults, result),
    ensures
        match file {
            None => result == Ok::<Settings, StepFailure<E>>(defaults),
            Some(f) => match decode(f.content) {
                Some(settings) if !(load is Unreadable) => result == Ok::<
                    Settings,
                    StepFailure<E>,
                >(settings),
                _ => result is Err,
            },
        },
{
}

/// Loading gives back what was saved: right after a save that nothing stopped,
/// of settings that survive their encoding, a file that can be read gives those
/// settings.
pub proof fn law_saved_settings_are_loaded<Settings, E>(
    encode: spec_fn(Settings) -> Seq<u8>,
    decode: spec_fn(Seq<u8>) -> Option<Settings>,
    settings: Settings,
    before: Option<FileView>,
    has_parent: bool,
    unix: bool,
    n: nat,
    path: Seq<char>,
    load: FileLoad<Settings, E>,
    defaults: Settings,
    result: Result<Settings, StepFailure<E>>,
)
    requires
        decode(encode(settings)) == Some(settings),
        nth_save_step(has_parent, unix, n) == SaveStep::Done,
        is_load_of(
            load,
            after_save_steps(before, has_parent, unix, encode(settings), n),
            decode,
            |settings: Settings| settings,
        ),
        !(load is Unreadable),
        files::is_settings_read(path, load, defaults, result),
    ensures
        result == Ok::<Settings, StepFailure<E>>(settings),
{
    law_settings_file_holds_the_content(before, has_parent, unix, encode(settings), n);
}

// ---- Where the files lie ----

/// The accounts file and the settings file are two entries of the config
/// directory.
pub proof fn law_files_lie_in_the_config_directory(
    home: PathBuf,
    directory: PathBuf,
    accounts: PathBuf,
    settings: PathBuf,
)
    requires
        paths::is_config_dir(Some(home), Ok::<PathBuf, StoreError>(directory)),
        paths::is_config_file(
            Some(home),
            paths::ACCOUNTS_FILE@,
            Ok::<PathBuf, StoreError>(accounts),
        ),
        paths::is_config_file(
            Some(home),
            paths::SETTINGS_FILE@,
            Ok::<PathBuf, StoreError>(settings),
        ),
    ensures
        paths::is_entry_of(accounts, directory, paths::ACCOUNTS_FILE@),
        paths::is_entry_of(settings, directory, paths::SETTINGS_FILE@),
        accounts != settings,
{
    reveal_strlit("accounts.json");
    reveal_strlit("settings.json");
    vstd::utf8::is_ascii_chars_encode_utf8(paths::ACCOUNTS_FILE@);
    vstd::utf8::is_ascii_chars_encode_utf8(paths::SETTINGS_FILE@);
    assert(paths::ACCOUNTS_FILE@[0] != paths::SETTINGS_FILE@[0]);
}

/// The config directory is `.codex-switcher` in the home directory, and its path
/// ends in that name. A user without a home directory has none.
pub proof fn law_config_directory_lies_in_the_home_directory(
    home: Option<PathBuf>,
    result: Result<PathBuf, StoreError>,
)
    requires
        paths::is_config_dir(home, result),
    ensures
        match home {
            Some(home) => {
                let bytes = paths::path_bytes(result->Ok_0);
                let name = vstd::utf8::encode_utf8(".codex-switcher"@);
                &&& result == Ok::<PathBuf, StoreError>(
                    paths::joined_path(home, ".codex-switcher"@),
                )
                &&& bytes.len() >= name.len()
                &&& bytes.skip(bytes.len() - name.len()) == name
            },
            None => result matches Err(e) && e is NoHomeDirectory,
        },
{
}

/// The accounts are in `accounts.json` and the settings in `settings.json`, both in
/// `.codex-switcher` in the home directory.
pub proof fn law_files_have_their_names(
    home: Option<PathBuf>,
    accounts: Result<PathBuf, StoreError>,
    settings: Result<PathBuf, StoreError>,
)
    requires
        paths::is_config_file(home, paths::ACCOUNTS_FILE@, accounts),
        paths::is_config_file(home, paths::SETTINGS_FILE@, settings),
    ensures
        match home {
            Some(home) => {
                let directory = paths::joined_path(home, ".codex-switcher"@);
                &&& accounts == Ok::<PathBuf, StoreError>(
                    paths::joined_path(directory, "accounts.json"@),
                )
                &&& settings == Ok::<PathBuf, StoreError>(
                    paths::joined_path(directory, "settings.json"@),
                )
            },
            None => {
                &&& accounts matches Err(e)
                &&& e is NoHomeDirectory
                &&& settings matches Err(f)
                &&& f is NoHomeDirectory
            },
        },
{
}

} // verus!
