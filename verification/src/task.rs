//! The task lifecycle: a task is enqueued with a fresh uid, then marked
//! processing, and ends either succeeded or failed. The store allocates uids,
//! names the file each task is kept in, and recovers the next uid from the
//! files already present.

use vstd::prelude::*;
use vstd::string::*;

use crate::errors::{described, BridgeError, BridgeErrorCode, BridgeResult};
use crate::text::{
    chars_of, decimal, lemma_parse_u32_decimal, parse_u32_chars, parse_u32_spec, string_push,
    u128_to_decimal, u32_to_decimal,
};

verus! {

/// What a task reports about the work it did or was asked to do.
#[derive(Debug, Clone)]
pub struct TaskDetails {
    pub received_documents: Option<u32>,
    pub indexed_documents: Option<u32>,
    pub searchable_attributes: Option<Vec<String>>,
}

/// A task as stored and reported: identity, status, and timestamps in
/// milliseconds since the Unix epoch, written in decimal.
#[derive(Debug, Clone)]
pub struct TaskInfo {
    pub uid: u32,
    pub index_uid: Option<String>,
    pub status: String,
    pub task_type: String,
    pub details: Option<TaskDetails>,
    pub error: Option<String>,
    pub enqueued_at: String,
    pub started_at: Option<String>,
    pub finished_at: Option<String>,
}

/// The mathematical content of [`TaskDetails`].
pub struct TaskDetailsView {
    pub received_documents: Option<u32>,
    pub indexed_documents: Option<u32>,
    pub searchable_attributes: Option<Seq<Seq<char>>>,
}

/// The mathematical content of [`TaskInfo`].
pub struct TaskInfoView {
    pub uid: u32,
    pub index_uid: Option<Seq<char>>,
    pub status: Seq<char>,
    pub task_type: Seq<char>,
    pub details: Option<TaskDetailsView>,
    pub error: Option<Seq<char>>,
    pub enqueued_at: Seq<char>,
    pub started_at: Option<Seq<char>>,
    pub finished_at: Option<Seq<char>>,
}

/// The characters of an optional string.
pub open spec fn opt_text(o: Option<String>) -> Option<Seq<char>> {
    match o {
        Some(s) => Some(s@),
        None => None,
    }
}

/// The characters of each string of an optional list.
pub open spec fn opt_texts(o: Option<Vec<String>>) -> Option<Seq<Seq<char>>> {
    match o {
        Some(v) => Some(v@.map_values(|s: String| s@)),
        None => None,
    }
}

impl View for TaskDetails {
    type V = TaskDetailsView;

    open spec fn view(&self) -> TaskDetailsView {
        TaskDetailsView {
            received_documents: self.received_documents,
            indexed_documents: self.indexed_documents,
            searchable_attributes: opt_texts(self.searchable_attributes),
        }
    }
}

/// The content of optional details.
pub open spec fn opt_details(o: Option<TaskDetails>) -> Option<TaskDetailsView> {
    match o {
        Some(d) => Some(d@),
        None => None,
    }
}

impl View for TaskInfo {
    type V = TaskInfoView;

    open spec fn view(&self) -> TaskInfoView {
        TaskInfoView {
            uid: self.uid,
            index_uid: opt_text(self.index_uid),
            status: self.status@,
            task_type: self.task_type@,
            details: opt_details(self.details),
            error: opt_text(self.error),
            enqueued_at: self.enqueued_at@,
            started_at: opt_text(self.started_at),
            finished_at: opt_text(self.finished_at),
        }
    }
}

/// Status of a task that waits to be processed.
pub open spec fn status_enqueued() -> Seq<char> {
    seq!['e', 'n', 'q', 'u', 'e', 'u', 'e', 'd']
}

/// Status of a task that is being processed.
pub open spec fn status_processing() -> Seq<char> {
    seq!['p', 'r', 'o', 'c', 'e', 's', 's', 'i', 'n', 'g']
}

/// Status of a task that completed.
pub open spec fn status_succeeded() -> Seq<char> {
    seq!['s', 'u', 'c', 'c', 'e', 'e', 'd', 'e', 'd']
}

/// Status of a task that ended with an error.
pub open spec fn status_failed() -> Seq<char> {
    seq!['f', 'a', 'i', 'l', 'e', 'd']
}

/// Whether a task has reached one of its two final statuses.
pub open spec fn terminal(t: TaskInfoView) -> bool {
    t.status == status_succeeded() || t.status == status_failed()
}

/// A new task as it is enqueued at time `now`.
pub open spec fn enqueued(
    uid: u32,
    index_uid: Option<Seq<char>>,
    task_type: Seq<char>,
    details: Option<TaskDetailsView>,
    now: Seq<char>,
) -> TaskInfoView {
    TaskInfoView {
        uid,
        index_uid,
        status: status_enqueued(),
        task_type,
        details,
        error: None,
        enqueued_at: now,
        started_at: None,
        finished_at: None,
    }
}

/// The start time of a task touched at `now`: the first one it was given stays.
pub open spec fn started_or(t: TaskInfoView, now: Seq<char>) -> Option<Seq<char>> {
    match t.started_at {
        Some(s) => Some(s),
        None => Some(now),
    }
}

/// `t` once it is marked processing at time `now`.
pub open spec fn processing(t: TaskInfoView, now: Seq<char>) -> TaskInfoView {
    TaskInfoView { status: status_processing(), started_at: started_or(t, now), ..t }
}

/// `t` once it is marked succeeded at time `now`; new details replace the old
/// ones only when given.
pub open spec fn succeeded(t: TaskInfoView, details: Option<TaskDetailsView>, now: Seq<char>) -> TaskInfoView {
    TaskInfoView {
        status: status_succeeded(),
        error: None,
        started_at: started_or(t, now),
        details: match details {
            Some(d) => Some(d),
            None => t.details,
        },
        finished_at: Some(now),
        ..t
    }
}

/// `t` once it is marked failed with `error` at time `now`.
pub open spec fn failed(t: TaskInfoView, error: Seq<char>, now: Seq<char>) -> TaskInfoView {
    TaskInfoView {
        status: status_failed(),
        error: Some(error),
        started_at: started_or(t, now),
        finished_at: Some(now),
        ..t
    }
}

/// Whether `s` is a timestamp as the store writes them: a decimal number.
pub open spec fn is_timestamp(s: Seq<char>) -> bool {
    exists|m: nat| s == decimal(m)
}

fn text(s: &str) -> (r: String)
    ensures
        r@ == s@,
{
    String::from_str(s)
}

fn status_text_enqueued() -> (r: String)
    ensures
        r@ == status_enqueued(),
{
    proof {
        reveal_strlit("enqueued");
    }
    let r = text("enqueued");
    assert(r@ =~= status_enqueued());
    r
}

fn status_text_processing() -> (r: String)
    ensures
        r@ == status_processing(),
{
    proof {
        reveal_strlit("processing");
    }
    let r = text("processing");
    assert(r@ =~= status_processing());
    r
}

fn status_text_succeeded() -> (r: String)
    ensures
        r@ == status_succeeded(),
{
    proof {
        reveal_strlit("succeeded");
    }
    let r = text("succeeded");
    assert(r@ =~= status_succeeded());
    r
}

fn status_text_failed() -> (r: String)
    ensures
        r@ == status_failed(),
{
    proof {
        reveal_strlit("failed");
    }
    let r = text("failed");
    assert(r@ =~= status_failed());
    r
}

impl TaskInfo {
    /// A new task with the given uid, enqueued at time `now`.
    pub fn enqueued_at_time(
        uid: u32,
        index_uid: Option<String>,
        task_type: String,
        details: Option<TaskDetails>,
        now: String,
    ) -> (t: TaskInfo)
        ensures
            t@ == enqueued(uid, opt_text(index_uid), task_type@, opt_details(details), now@),
    {
        TaskInfo {
            uid,
            index_uid,
            status: status_text_enqueued(),
            task_type,
            details,
            error: None,
            enqueued_at: now,
            started_at: None,
            finished_at: None,
        }
    }

    /// The task, marked processing at time `now`.
    pub fn processing_at(self, now: String) -> (t: TaskInfo)
        ensures
            t@ == processing(self@, now@),
            t@.finished_at == self@.finished_at,
            t@.details == self@.details,
            t@.error == self@.error,
            t@.started_at == (if self@.started_at is Some { self@.started_at } else { Some(now@) }),
    {
        let started_at = match self.started_at {
            Some(s) => Some(s),
            None => Some(now),
        };
        TaskInfo { status: status_text_processing(), started_at, ..self }
    }

    /// The task, marked succeeded at time `now`, with `details` when given.
    pub fn succeeded_at(self, details: Option<TaskDetails>, now: String) -> (t: TaskInfo)
        ensures
            t@ == succeeded(self@, opt_details(details), now@),
            t@.finished_at == Some(now@),
            t@.error is None,
            t@.details == (if details is Some { opt_details(details) } else { self@.details }),
            t@.started_at == (if self@.started_at is Some { self@.started_at } else { Some(now@) }),
    {
        let started_at = match self.started_at {
            Some(s) => Some(s),
            None => Some(now.clone()),
        };
        let details = match details {
            Some(d) => Some(d),
            None => self.details,
        };
        TaskInfo {
            status: status_text_succeeded(),
            error: None,
            started_at,
            details,
            finished_at: Some(now),
            ..self
        }
    }

    /// The task, marked failed with `error` at time `now`.
    pub fn failed_at(self, error: String, now: String) -> (t: TaskInfo)
        ensures
            t@ == failed(self@, error@, now@),
            t@.finished_at == Some(now@),
            t@.error == Some(error@),
            t@.details == self@.details,
            t@.started_at == (if self@.started_at is Some { self@.started_at } else { Some(now@) }),
    {
        let started_at = match self.started_at {
            Some(s) => Some(s),
            None => Some(now.clone()),
        };
        TaskInfo {
            status: status_text_failed(),
            error: Some(error),
            started_at,
            finished_at: Some(now),
            ..self
        }
    }
}


#[verifier::external_type_specification]
#[verifier::external_body]
pub struct ExSystemTime(std::time::SystemTime);

/// `SystemTime::now`: the current reading of the system clock. Nothing is
/// stated of it: it depends on the machine and the moment.
#[verifier::external_body]
fn system_now() -> std::time::SystemTime {
    std::time::SystemTime::now()
}

/// `SystemTime::duration_since(UNIX_EPOCH)`: the time elapsed since the Unix
/// epoch, or `None` when the clock reads earlier than the epoch. Nothing is
/// stated of which of the two comes back.
#[verifier::external_body]
fn since_unix_epoch(t: &std::time::SystemTime) -> Option<std::time::Duration> {
    t.duration_since(std::time::UNIX_EPOCH).ok()
}

/// `Duration::as_millis`: the whole milliseconds of a duration. Nothing is
/// stated of the number, since a duration has no model here.
#[verifier::external_body]
fn whole_millis(d: &std::time::Duration) -> u128 {
    d.as_millis()
}

/// The timestamp text for an optional reading in milliseconds: its decimal
/// rendering, or `"0"` when the clock could not be read.
pub fn timestamp_text(millis: Option<u128>) -> (s: String)
    ensures
        s@ == decimal(
            match millis {
                Some(m) => m as nat,
                None => 0,
            },
        ),
{
    match millis {
        Some(m) => u128_to_decimal(m),
        None => u128_to_decimal(0),
    }
}

/// The current time in milliseconds since the Unix epoch, in decimal; `"0"`
/// when the clock reads earlier than the epoch.
pub fn now_string() -> (s: String)
    ensures
        is_timestamp(s@),
{
    let t = system_now();
    let millis = match since_unix_epoch(&t) {
        Some(d) => Some(whole_millis(&d)),
        None => None,
    };
    let s = timestamp_text(millis);
    proof {
        let m: nat = match millis {
            Some(m) => m as nat,
            None => 0,
        };
        assert(s@ == decimal(m));
    }
    s
}

/// The name of the directory, under the engine's base path, that holds the tasks.
pub open spec fn tasks_dir_name() -> Seq<char> {
    seq!['.', 't', 'a', 's', 'k', 's']
}

/// The extension of a task file, with its dot.
pub open spec fn json_suffix() -> Seq<char> {
    seq!['.', 'j', 's', 'o', 'n']
}

/// `name` adjoined to the directory `dir`, as `Path::join` adjoins a relative
/// name on Unix: a separator is put between them unless `dir` is empty or
/// already ends with one.
pub open spec fn join_path(dir: Seq<char>, name: Seq<char>) -> Seq<char> {
    if dir.len() == 0 || dir.last() == '/' {
        dir + name
    } else {
        dir + seq!['/'] + name
    }
}

/// The name of the file that holds the task `uid`: `"<uid>.json"`.
pub open spec fn task_file_name(uid: u32) -> Seq<char> {
    decimal(uid as nat) + json_suffix()
}

/// Index of the last `'.'` before position `j`, or -1.
pub open spec fn last_dot(name: Seq<char>, j: int) -> int
    decreases j,
{
    if j <= 0 {
        -1
    } else if name[j - 1] == '.' {
        j - 1
    } else {
        last_dot(name, j - 1)
    }
}

/// The task uid that a file name stands for: the file's extension, the part
/// after its last dot, must be `json` (a name whose only dot leads it has no
/// extension), and its stem, the part before, must parse as a `u32`.
pub open spec fn task_uid_of_file(name: Seq<char>) -> Option<u32> {
    let d = last_dot(name, name.len() as int);
    if d <= 0 {
        None
    } else if name.subrange(d + 1, name.len() as int) == json_suffix().drop_first() {
        parse_u32_spec(name.subrange(0, d))
    } else {
        None
    }
}

/// The largest task uid among the file names, or 0 when none stands for a task.
pub open spec fn max_task_uid(names: Seq<Seq<char>>) -> u32
    decreases names.len(),
{
    if names.len() == 0 {
        0
    } else {
        let m = max_task_uid(names.drop_last());
        match task_uid_of_file(names.last()) {
            Some(u) => if u > m { u } else { m },
            None => m,
        }
    }
}

/// The first uid to hand out, given the files already in the task directory:
/// one above the largest uid found, saturating at `u32::MAX`.
pub open spec fn recovered_next_uid(names: Seq<Seq<char>>) -> u32 {
    let m = max_task_uid(names);
    if m == u32::MAX { m } else { (m + 1) as u32 }
}

/// The uid after `u`, wrapping from `u32::MAX` to 0 as an atomic counter does.
pub open spec fn wrapping_next(u: u32) -> u32 {
    if u == u32::MAX { 0 } else { (u + 1) as u32 }
}

/// The views of a list of strings.
pub open spec fn texts(v: Seq<String>) -> Seq<Seq<char>> {
    v.map_values(|s: String| s@)
}

/// `name` adjoined to `dir` as `Path::join` does for a relative name on Unix.
pub fn join_path_text(dir: &str, name: &str) -> (p: String)
    ensures
        p@ == join_path(dir@, name@),
{
    let n = dir.unicode_len();
    let mut p = String::from_str(dir);
    if n > 0 && dir.get_char(n - 1) != '/' {
        string_push(&mut p, '/');
    }
    p.append(name);
    p
}

/// The directory that holds the tasks of an engine rooted at `base_path`.
pub fn tasks_dir(base_path: &str) -> (p: String)
    ensures
        p@ == join_path(base_path@, tasks_dir_name()),
{
    proof {
        reveal_strlit(".tasks");
    }
    let name = String::from_str(".tasks");
    assert(name@ =~= tasks_dir_name());
    join_path_text(base_path, name.as_str())
}

/// The name of the file that holds the task `uid`.
pub fn task_file(uid: u32) -> (name: String)
    ensures
        name@ == task_file_name(uid),
{
    proof {
        reveal_strlit(".json");
    }
    let mut name = u32_to_decimal(uid);
    name.append(".json");
    assert(".json"@ =~= json_suffix());
    name
}

/// The uid that the file `name` stands for, if it is a task file.
pub fn task_uid_of_file_name(name: &str) -> (r: Option<u32>)
    ensures
        r == task_uid_of_file(name@),
{
    let cs = chars_of(name);
    let n = cs.len();
    let mut j: usize = n;
    while j > 0 && cs[j - 1] != '.'
        invariant
            j <= n,
            n == cs@.len(),
            cs@ == name@,
            last_dot(name@, j as int) == last_dot(name@, n as int),
        decreases j,
    {
        j = j - 1;
    }
    if j <= 1 {
        return None;
    }
    let d = j - 1;
    assert(last_dot(name@, n as int) == d as int);
    let ghost ext = name@.subrange(d + 1, n as int);
    if n - (d + 1) != 4 || cs[d + 1] != 'j' || cs[d + 2] != 's' || cs[d + 3] != 'o' || cs[d + 4] != 'n' {
        proof {
            if ext.len() == 4 {
                assert(ext[0] == cs@[d + 1]);
                assert(ext[1] == cs@[d + 2]);
                assert(ext[2] == cs@[d + 3]);
                assert(ext[3] == cs@[d + 4]);
            }
            assert(ext != json_suffix().drop_first());
        }
        return None;
    }
    assert(ext =~= json_suffix().drop_first());
    parse_u32_chars(&cs, 0, d)
}

/// Issues task uids and names the files that tasks are kept in.
#[derive(Debug)]
pub struct TaskStore {
    dir: String,
    next_uid: u32,
}

impl TaskStore {
    /// The directory that holds the task files.
    pub closed spec fn dir_view(&self) -> Seq<char> {
        self.dir@
    }

    /// The uid that the next enqueued task receives.
    pub closed spec fn next_uid_view(&self) -> u32 {
        self.next_uid
    }

    /// A store for the engine rooted at `base_path`, whose task directory
    /// already holds the files named in `existing_files`: uids continue one
    /// above the largest uid found there.
    pub fn new(base_path: &str, existing_files: &Vec<String>) -> (store: TaskStore)
        ensures
            store.dir_view() == join_path(base_path@, tasks_dir_name()),
            store.next_uid_view() == recovered_next_uid(texts(existing_files@)),
    {
        let mut max_uid: u32 = 0;
        let mut i: usize = 0;
        while i < existing_files.len()
            invariant
                i <= existing_files@.len(),
                max_uid == max_task_uid(texts(existing_files@.subrange(0, i as int))),
            decreases existing_files@.len() - i,
        {
            let found = task_uid_of_file_name(existing_files[i].as_str());
            proof {
                let pre = existing_files@.subrange(0, i as int);
                let post = existing_files@.subrange(0, i + 1);
                assert(texts(post).drop_last() =~= texts(pre));
                assert(texts(post).last() == existing_files@[i as int]@);
            }
            match found {
                Some(u) => {
                    if u > max_uid {
                        max_uid = u;
                    }
                },
                None => {},
            }
            i = i + 1;
        }
        assert(existing_files@.subrange(0, existing_files@.len() as int) =~= existing_files@);
        let next_uid = if max_uid == u32::MAX { max_uid } else { max_uid + 1 };
        TaskStore { dir: tasks_dir(base_path), next_uid }
    }

    /// The directory that holds the task files.
    pub fn dir(&self) -> (d: String)
        ensures
            d@ == self.dir_view(),
    {
        self.dir.clone()
    }

    /// The uid that the next enqueued task receives.
    pub fn next_uid(&self) -> (u: u32)
        ensures
            u == self.next_uid_view(),
    {
        self.next_uid
    }

    /// The path of the file that holds the task `uid`.
    pub fn task_path(&self, uid: u32) -> (p: String)
        ensures
            p@ == join_path(self.dir_view(), task_file_name(uid)),
    {
        let name = task_file(uid);
        join_path_text(self.dir.as_str(), name.as_str())
    }

    /// Enqueues a new task: it receives the next uid, the counter moves on by
    /// one (wrapping at `u32::MAX`), and the task is stamped with the time.
    pub fn create_enqueued_task(
        &mut self,
        index_uid: Option<String>,
        task_type: String,
        details: Option<TaskDetails>,
    ) -> (task: TaskInfo)
        ensures
            task@ == enqueued(
                old(self).next_uid_view(),
                opt_text(index_uid),
                task_type@,
                opt_details(details),
                task@.enqueued_at,
            ),
            is_timestamp(task@.enqueued_at),
            final(self).next_uid_view() == wrapping_next(old(self).next_uid_view()),
            final(self).dir_view() == old(self).dir_view(),
    {
        let uid = self.next_uid;
        self.next_uid = if uid == u32::MAX { 0 } else { uid + 1 };
        let now = now_string();
        TaskInfo::enqueued_at_time(uid, index_uid, task_type, details, now)
    }

    /// `task` marked processing; it keeps its start time if it has one, and
    /// is stamped with the current time otherwise.
    pub fn mark_processing(&self, task: TaskInfo) -> (t: TaskInfo)
        ensures
            t@.started_at is Some,
            t@ == processing(task@, t@.started_at.unwrap()),
            task@.started_at is None ==> is_timestamp(t@.started_at.unwrap()),
    {
        let now = now_string();
        task.processing_at(now)
    }

    /// `task` marked succeeded at the current time, with `details` when given.
    pub fn mark_succeeded(&self, task: TaskInfo, details: Option<TaskDetails>) -> (t: TaskInfo)
        ensures
            t@.finished_at is Some,
            t@ == succeeded(task@, opt_details(details), t@.finished_at.unwrap()),
            is_timestamp(t@.finished_at.unwrap()),
    {
        let now = now_string();
        task.succeeded_at(details, now)
    }

    /// `task` marked failed with `error` at the current time.
    pub fn mark_failed(&self, task: TaskInfo, error: String) -> (t: TaskInfo)
        ensures
            t@.finished_at is Some,
            t@ == failed(task@, error@, t@.finished_at.unwrap()),
            is_timestamp(t@.finished_at.unwrap()),
    {
        let now = now_string();
        task.failed_at(error, now)
    }

    /// Whether `task` has succeeded or failed.
    pub fn is_terminal(task: &TaskInfo) -> (b: bool)
        ensures
            b == terminal(task@),
    {
        let succeeded = status_text_succeeded();
        let failed = status_text_failed();
        task.status == succeeded || task.status == failed
    }

    /// `task` ended by the outcome of its work: succeeded with the details the
    /// work reported, or failed with the error shown as `"<code>: <message>"`.
    pub fn finish_task(&self, task: TaskInfo, outcome: BridgeResult<TaskDetails>) -> (t: TaskInfo)
        ensures
            t@.finished_at is Some,
            is_timestamp(t@.finished_at.unwrap()),
            terminal(t@),
            match outcome {
                Ok(d) => t@ == succeeded(task@, Some(d@), t@.finished_at.unwrap()),
                Err(e) => t@ == failed(task@, described(e.code, e.message@), t@.finished_at.unwrap()),
            },
    {
        match outcome {
            Ok(d) => self.mark_succeeded(task, Some(d)),
            Err(e) => {
                let message = e.describe();
                self.mark_failed(task, message)
            },
        }
    }
}

/// The error a lookup of the task `uid` answers with when no file holds it.
pub fn task_not_found(uid: u32) -> (e: BridgeError)
    ensures
        e.code == BridgeErrorCode::TaskNotFound,
        e.message@ == "Task "@ + decimal(uid as nat) + " does not exist"@,
{
    let mut message = String::from_str("Task ");
    let n = u32_to_decimal(uid);
    message.append(n.as_str());
    message.append(" does not exist");
    BridgeError { code: BridgeErrorCode::TaskNotFound, message }
}

/// The error a lookup of the task `uid` answers with when reading its file
/// failed: `TaskNotFound` when the file is missing, `IoError` with the
/// reader's message otherwise.
pub fn task_read_failed(uid: u32, file_missing: bool, io_message: String) -> (e: BridgeError)
    ensures
        file_missing ==> e.code == BridgeErrorCode::TaskNotFound
            && e.message@ == "Task "@ + decimal(uid as nat) + " does not exist"@,
        !file_missing ==> e.code == BridgeErrorCode::IoError && e.message@ == io_message@,
{
    if file_missing {
        task_not_found(uid)
    } else {
        BridgeError::from_io(io_message)
    }
}

/// The error reported when the stored text of task `uid` could not be decoded.
pub fn task_decode_failed(uid: u32, detail: &str) -> (e: BridgeError)
    ensures
        e.code == BridgeErrorCode::Internal,
        e.message@ == "failed to deserialize task "@ + decimal(uid as nat) + ": "@ + detail@,
{
    let mut message = String::from_str("failed to deserialize task ");
    let n = u32_to_decimal(uid);
    message.append(n.as_str());
    message.append(": ");
    message.append(detail);
    BridgeError { code: BridgeErrorCode::Internal, message }
}

/// The error reported when task `uid` could not be encoded for storage.
pub fn task_encode_failed(uid: u32, detail: &str) -> (e: BridgeError)
    ensures
        e.code == BridgeErrorCode::Internal,
        e.message@ == "failed to serialize task "@ + decimal(uid as nat) + ": "@ + detail@,
{
    let mut message = String::from_str("failed to serialize task ");
    let n = u32_to_decimal(uid);
    message.append(n.as_str());
    message.append(": ");
    message.append(detail);
    BridgeError { code: BridgeErrorCode::Internal, message }
}


/// Every step of the lifecycle keeps what identifies a task: its uid, its
/// index, its type and the time it was enqueued.
pub proof fn law_transitions_keep_identity(
    t: TaskInfoView,
    details: Option<TaskDetailsView>,
    error: Seq<char>,
    now: Seq<char>,
)
    ensures
        processing(t, now).uid == t.uid && processing(t, now).index_uid == t.index_uid
            && processing(t, now).task_type == t.task_type
            && processing(t, now).enqueued_at == t.enqueued_at,
        succeeded(t, details, now).uid == t.uid && succeeded(t, details, now).index_uid
            == t.index_uid && succeeded(t, details, now).task_type == t.task_type
            && succeeded(t, details, now).enqueued_at == t.enqueued_at,
        failed(t, error, now).uid == t.uid && failed(t, error, now).index_uid == t.index_uid
            && failed(t, error, now).task_type == t.task_type
            && failed(t, error, now).enqueued_at == t.enqueued_at,
{
}

/// A succeeded or failed task is terminal; an enqueued or processing one is not.
pub proof fn law_terminal_statuses(
    t: TaskInfoView,
    uid: u32,
    index_uid: Option<Seq<char>>,
    task_type: Seq<char>,
    details: Option<TaskDetailsView>,
    error: Seq<char>,
    now: Seq<char>,
)
    ensures
        terminal(succeeded(t, details, now)),
        terminal(failed(t, error, now)),
        !terminal(processing(t, now)),
        !terminal(enqueued(uid, index_uid, task_type, details, now)),
{
    assert(status_processing().len() != status_succeeded().len());
    assert(status_processing().len() != status_failed().len());
    assert(status_enqueued().len() != status_succeeded().len());
    assert(status_enqueued().len() != status_failed().len());
}

/// The start time of a task, once given, never changes; after any step past
/// enqueueing the task has one, and a finished task has a finish time.
pub proof fn law_start_time_kept(
    t: TaskInfoView,
    details: Option<TaskDetailsView>,
    error: Seq<char>,
    now: Seq<char>,
)
    ensures
        processing(t, now).started_at is Some,
        succeeded(t, details, now).started_at is Some,
        failed(t, error, now).started_at is Some,
        succeeded(t, details, now).finished_at == Some(now),
        failed(t, error, now).finished_at == Some(now),
        t.started_at is Some ==> {
            &&& processing(t, now).started_at == t.started_at
            &&& succeeded(t, details, now).started_at == t.started_at
            &&& failed(t, error, now).started_at == t.started_at
        },
{
}

/// A failed task carries its error; a succeeded one carries none.
pub proof fn law_error_matches_outcome(
    t: TaskInfoView,
    details: Option<TaskDetailsView>,
    error: Seq<char>,
    now: Seq<char>,
)
    ensures
        failed(t, error, now).error == Some(error),
        succeeded(t, details, now).error is None,
{
}

/// A task runs through its whole lifecycle: enqueued at `t0`, processed from
/// `t1`, and finished at `t2` either way, it keeps its identity and its
/// enqueue time, starts at `t1`, finishes at `t2` and is terminal.
pub proof fn law_lifecycle(
    uid: u32,
    index_uid: Option<Seq<char>>,
    task_type: Seq<char>,
    details: Option<TaskDetailsView>,
    result_details: Option<TaskDetailsView>,
    error: Seq<char>,
    t0: Seq<char>,
    t1: Seq<char>,
    t2: Seq<char>,
)
    ensures
        ({
            let p = processing(enqueued(uid, index_uid, task_type, details, t0), t1);
            let s = succeeded(p, result_details, t2);
            let f = failed(p, error, t2);
            &&& p.status == status_processing() && !terminal(p)
            &&& s.uid == uid && s.index_uid == index_uid && s.task_type == task_type
            &&& f.uid == uid && f.index_uid == index_uid && f.task_type == task_type
            &&& s.enqueued_at == t0 && f.enqueued_at == t0
            &&& s.started_at == Some(t1) && f.started_at == Some(t1)
            &&& s.finished_at == Some(t2) && f.finished_at == Some(t2)
            &&& terminal(s) && terminal(f)
            &&& s.details == (if result_details is Some { result_details } else { details })
        }),
{
    let p = processing(enqueued(uid, index_uid, task_type, details, t0), t1);
    law_terminal_statuses(p, uid, index_uid, task_type, details, error, t2);
    law_terminal_statuses(enqueued(uid, index_uid, task_type, details, t0), uid, index_uid, task_type, details, error, t1);
}

/// The file a task is kept in is recognised as that task's file.
pub proof fn law_task_file_roundtrip(uid: u32)
    ensures
        task_uid_of_file(task_file_name(uid)) == Some(uid),
{
    let dec = decimal(uid as nat);
    let name = task_file_name(uid);
    lemma_parse_u32_decimal(uid);
    crate::text::lemma_decimal_roundtrip(uid as nat);
    let n = name.len() as int;
    let d = dec.len() as int;
    assert(n == d + 5);
    assert(name[d] == '.');
    assert(name[d + 1] == 'j');
    assert(name[d + 2] == 's');
    assert(name[d + 3] == 'o');
    assert(name[d + 4] == 'n');
    assert(last_dot(name, d + 1) == d);
    assert(last_dot(name, d + 2) == d);
    assert(last_dot(name, d + 3) == d);
    assert(last_dot(name, d + 4) == d);
    assert(last_dot(name, d + 5) == d);
    assert(name.subrange(d + 1, n) =~= json_suffix().drop_first());
    assert(name.subrange(0, d) =~= dec);
}

proof fn lemma_max_task_uid_bound(names: Seq<Seq<char>>, k: int)
    requires
        0 <= k < names.len(),
        task_uid_of_file(names[k]) is Some,
    ensures
        task_uid_of_file(names[k]).unwrap() <= max_task_uid(names),
    decreases names.len(),
{
    if k < names.len() - 1 {
        lemma_max_task_uid_bound(names.drop_last(), k);
        assert(names.drop_last()[k] == names[k]);
    }
}

/// A store recovered from a task directory hands out uids above every task
/// kept there (unless the largest kept uid is `u32::MAX`), so the first tasks
/// it enqueues never overwrite a stored one.
pub proof fn law_recovery_above_stored(names: Seq<Seq<char>>, uid: u32)
    requires
        names.contains(task_file_name(uid)),
        uid < u32::MAX,
    ensures
        recovered_next_uid(names) > uid,
{
    let k = choose|k: int| 0 <= k < names.len() && names[k] == task_file_name(uid);
    law_task_file_roundtrip(uid);
    lemma_max_task_uid_bound(names, k);
}


/// The uid the counter stands at after `k` enqueues from `start`.
pub open spec fn uid_after(start: u32, k: nat) -> u32
    decreases k,
{
    if k == 0 {
        start
    } else {
        wrapping_next(uid_after(start, (k - 1) as nat))
    }
}

proof fn lemma_uid_after_no_wrap(start: u32, k: nat)
    requires
        start + k <= u32::MAX,
    ensures
        uid_after(start, k) == start + k,
    decreases k,
{
    if k > 0 {
        lemma_uid_after_no_wrap(start, (k - 1) as nat);
    }
}

/// Every uid a recovered store hands out before its counter wraps is above
/// every task kept in the task directory, so no enqueue overwrites a stored
/// task: the `k`-th enqueue (from 0) hands out `uid_after(next, k)`, which is
/// above `uid` whenever `uid.json` is stored and `next + k` does not pass
/// `u32::MAX` (and the largest stored uid is below `u32::MAX`, past which
/// recovery saturates).
pub proof fn law_recovered_uids_above_stored(names: Seq<Seq<char>>, uid: u32, k: nat)
    requires
        names.contains(task_file_name(uid)),
        max_task_uid(names) < u32::MAX,
        recovered_next_uid(names) + k <= u32::MAX,
    ensures
        uid_after(recovered_next_uid(names), k) > uid,
{
    let i = choose|i: int| 0 <= i < names.len() && names[i] == task_file_name(uid);
    law_task_file_roundtrip(uid);
    lemma_max_task_uid_bound(names, i);
    lemma_uid_after_no_wrap(recovered_next_uid(names), k);
}


/// How far along its lifecycle a status is: 0 enqueued, 1 processing,
/// 2 succeeded or failed.
pub open spec fn status_rank(status: Seq<char>) -> int {
    if status == status_enqueued() {
        0
    } else if status == status_processing() {
        1
    } else if status == status_succeeded() || status == status_failed() {
        2
    } else {
        -1
    }
}

/// The statuses rank in lifecycle order.
pub proof fn law_status_ranks(
    t: TaskInfoView,
    uid: u32,
    index_uid: Option<Seq<char>>,
    task_type: Seq<char>,
    details: Option<TaskDetailsView>,
    error: Seq<char>,
    now: Seq<char>,
)
    ensures
        status_rank(enqueued(uid, index_uid, task_type, details, now).status) == 0,
        status_rank(processing(t, now).status) == 1,
        status_rank(succeeded(t, details, now).status) == 2,
        status_rank(failed(t, error, now).status) == 2,
        terminal(t) <==> status_rank(t.status) == 2,
{
    assert(status_processing().len() != status_enqueued().len());
    assert(status_succeeded().len() != status_enqueued().len());
    assert(status_succeeded().len() != status_processing().len());
    assert(status_failed().len() != status_enqueued().len());
    assert(status_failed().len() != status_processing().len());
}

/// The background run of a task, step by step: it is started, then finished
/// with the outcome of its work. Every step leaves the task at least as far
/// along its lifecycle as it was, and a finished task no longer changes.
pub struct TaskProgress {
    task: TaskInfo,
}

impl TaskProgress {
    /// The task as the run has it now.
    pub closed spec fn current(&self) -> TaskInfoView {
        self.task@
    }

    /// A run of `task` as it stands.
    pub fn new(task: TaskInfo) -> (p: TaskProgress)
        ensures
            p.current() == task@,
    {
        TaskProgress { task }
    }

    /// The task as the run has it now.
    pub fn task(&self) -> (t: &TaskInfo)
        ensures
            t@ == self.current(),
    {
        &self.task
    }

    /// Starts the run: a task not yet processing is marked processing at the
    /// current time; one already processing or finished stays as it is.
    pub fn start(self) -> (p: TaskProgress)
        ensures
            status_rank(self.current().status) <= 0 ==> {
                &&& p.current().started_at is Some
                &&& p.current() == processing(self.current(), p.current().started_at.unwrap())
                &&& self.current().started_at is None ==> is_timestamp(p.current().started_at.unwrap())
            },
            status_rank(self.current().status) > 0 ==> p.current() == self.current(),
            status_rank(p.current().status) >= status_rank(self.current().status),
    {
        proof {
            law_status_ranks(self.task@, 0, None, Seq::empty(), None, Seq::empty(), Seq::empty());
        }
        let processing_text = status_text_processing();
        if TaskStore::is_terminal(&self.task) || self.task.status == processing_text {
            self
        } else {
            let now = now_string();
            TaskProgress { task: self.task.processing_at(now) }
        }
    }

    /// Finishes the run with the outcome of its work: succeeded with the
    /// details the work reported, or failed with the error shown as
    /// `"<code>: <message>"`, at the current time. A finished task stays as
    /// it is.
    pub fn finish(self, outcome: BridgeResult<TaskDetails>) -> (p: TaskProgress)
        ensures
            terminal(self.current()) ==> p.current() == self.current(),
            !terminal(self.current()) ==> {
                &&& p.current().finished_at is Some
                &&& is_timestamp(p.current().finished_at.unwrap())
                &&& match outcome {
                    Ok(d) => p.current() == succeeded(self.current(), Some(d@), p.current().finished_at.unwrap()),
                    Err(e) => p.current() == failed(
                        self.current(),
                        described(e.code, e.message@),
                        p.current().finished_at.unwrap(),
                    ),
                }
            },
            terminal(p.current()),
            status_rank(p.current().status) >= status_rank(self.current().status),
    {
        proof {
            law_status_ranks(self.task@, 0, None, Seq::empty(), None, Seq::empty(), Seq::empty());
        }
        if TaskStore::is_terminal(&self.task) {
            self
        } else {
            let now = now_string();
            let task = match outcome {
                Ok(d) => self.task.succeeded_at(Some(d), now),
                Err(e) => {
                    let message = e.describe();
                    self.task.failed_at(message, now)
                },
            };
            proof {
                law_terminal_statuses(self.task@, 0, None, Seq::empty(), None, Seq::empty(), Seq::empty());
                law_status_ranks(task@, 0, None, Seq::empty(), None, Seq::empty(), Seq::empty());
            }
            TaskProgress { task }
        }
    }
}

/// A run that starts from an enqueued task moves it to processing, then to
/// succeeded or failed, never back: the ranks read along the run are 0, 1, 2,
/// and once finished further starts and finishes leave it as it is.
pub proof fn law_run_moves_forward(t: TaskInfoView, details: Option<TaskDetailsView>, error: Seq<char>, now1: Seq<char>, now2: Seq<char>)
    requires
        t.status == status_enqueued(),
    ensures
        status_rank(t.status) == 0,
        status_rank(processing(t, now1).status) == 1,
        status_rank(succeeded(processing(t, now1), details, now2).status) == 2,
        status_rank(failed(processing(t, now1), error, now2).status) == 2,
        terminal(succeeded(processing(t, now1), details, now2)),
        terminal(failed(processing(t, now1), error, now2)),
{
    law_status_ranks(t, 0, None, Seq::empty(), None, error, now1);
    law_status_ranks(processing(t, now1), 0, None, Seq::empty(), details, error, now2);
    law_terminal_statuses(processing(t, now1), 0, None, Seq::empty(), details, error, now2);
}

/// A task that succeeded with details reports exactly those details, so a
/// finished document addition reports its indexed count and a finished
/// settings update its searchable attributes; a failed task reports its error.
pub proof fn law_outcome_reported(t: TaskInfoView, d: TaskDetailsView, error: Seq<char>, now: Seq<char>)
    ensures
        succeeded(t, Some(d), now).details == Some(d),
        d.indexed_documents is Some ==> succeeded(t, Some(d), now).details.unwrap().indexed_documents is Some,
        succeeded(t, Some(d), now).details.unwrap().searchable_attributes == d.searchable_attributes,
        failed(t, error, now).error is Some,
{
}

/// Before the counter wraps, successive enqueues hand out strictly
/// increasing uids, so they are pairwise distinct; with the store behind a
/// lock, an enqueue that happens after another gets the larger uid.
pub proof fn law_uids_increase(start: u32, j: nat, k: nat)
    requires
        j < k,
        start + k <= u32::MAX,
    ensures
        uid_after(start, j) < uid_after(start, k),
{
    lemma_uid_after_no_wrap(start, j);
    lemma_uid_after_no_wrap(start, k);
}


/// Enqueueing sets exactly what it is given: the uid, index, type, details
/// and enqueue time as passed, status enqueued, and no error, start or finish.
pub proof fn law_enqueue_fields(
    uid: u32,
    index_uid: Option<Seq<char>>,
    task_type: Seq<char>,
    details: Option<TaskDetailsView>,
    now: Seq<char>,
)
    ensures
        ({
            let t = enqueued(uid, index_uid, task_type, details, now);
            &&& t.uid == uid
            &&& t.index_uid == index_uid
            &&& t.task_type == task_type
            &&& t.details == details
            &&& t.enqueued_at == now
            &&& t.status == seq!['e', 'n', 'q', 'u', 'e', 'u', 'e', 'd']
            &&& t.error is None
            &&& t.started_at is None
            &&& t.finished_at is None
        }),
{
}

/// Marking a task processing changes only its status and, when it has none
/// yet, its start time: its finish time, error and details stay as they were.
pub proof fn law_processing_fields(t: TaskInfoView, now: Seq<char>)
    ensures
        ({
            let p = processing(t, now);
            &&& p.status == seq!['p', 'r', 'o', 'c', 'e', 's', 's', 'i', 'n', 'g']
            &&& p.started_at == (if t.started_at is Some { t.started_at } else { Some(now) })
            &&& p.finished_at == t.finished_at
            &&& p.error == t.error
            &&& p.details == t.details
            &&& p.uid == t.uid && p.index_uid == t.index_uid && p.task_type == t.task_type
            &&& p.enqueued_at == t.enqueued_at
        }),
{
}

/// Marking a task succeeded stamps its finish time, clears its error, and
/// replaces its details only with details that are given; the rest stays.
pub proof fn law_succeeded_fields(t: TaskInfoView, details: Option<TaskDetailsView>, now: Seq<char>)
    ensures
        ({
            let f = succeeded(t, details, now);
            &&& f.status == seq!['s', 'u', 'c', 'c', 'e', 'e', 'd', 'e', 'd']
            &&& f.finished_at == Some(now)
            &&& f.error is None
            &&& f.details == (if details is Some { details } else { t.details })
            &&& f.started_at == (if t.started_at is Some { t.started_at } else { Some(now) })
            &&& f.uid == t.uid && f.index_uid == t.index_uid && f.task_type == t.task_type
            &&& f.enqueued_at == t.enqueued_at
        }),
{
}

/// Marking a task failed stamps its finish time and records the error; its
/// details, and everything else it had, stay as they were.
pub proof fn law_failed_fields(t: TaskInfoView, error: Seq<char>, now: Seq<char>)
    ensures
        ({
            let f = failed(t, error, now);
            &&& f.status == seq!['f', 'a', 'i', 'l', 'e', 'd']
            &&& f.finished_at == Some(now)
            &&& f.error == Some(error)
            &&& f.details == t.details
            &&& f.started_at == (if t.started_at is Some { t.started_at } else { Some(now) })
            &&& f.uid == t.uid && f.index_uid == t.index_uid && f.task_type == t.task_type
            &&& f.enqueued_at == t.enqueued_at
        }),
{
}

/// Along a run, a task enqueued with details `d` at `t0` and started at `t1`
/// has no finish time while processing, and when it ends at `t2` it still
/// reports `d` if it failed, or the new details if it succeeded with some.
pub proof fn law_run_keeps_details(
    uid: u32,
    index_uid: Option<Seq<char>>,
    task_type: Seq<char>,
    d: Option<TaskDetailsView>,
    result_details: Option<TaskDetailsView>,
    error: Seq<char>,
    t0: Seq<char>,
    t1: Seq<char>,
    t2: Seq<char>,
)
    ensures
        ({
            let p = processing(enqueued(uid, index_uid, task_type, d, t0), t1);
            &&& p.finished_at is None
            &&& p.started_at == Some(t1)
            &&& p.details == d
            &&& failed(p, error, t2).details == d
            &&& succeeded(p, result_details, t2).details == (if result_details is Some { result_details } else { d })
        }),
{
    law_enqueue_fields(uid, index_uid, task_type, d, t0);
    let e = enqueued(uid, index_uid, task_type, d, t0);
    law_processing_fields(e, t1);
    law_failed_fields(processing(e, t1), error, t2);
    law_succeeded_fields(processing(e, t1), result_details, t2);
}

} // verus!
