//! The interface of the Seafile daemon: its records and its methods, bound to
//! the blocking client.

use crate::client::{one_round_trip, raw_outcome, SearpcClient};
use crate::dispatch::{and_then, int_outcome, string_outcome};
use crate::document::{
    field, not_an_object, optional, optional_outcome, records_outcome, required, FromDocument,
};
use crate::error::{outcome, SearpcError};
use crate::json::{Json, JsonValue};
use crate::protocol::arg_views;
use crate::transport::Transport;
use crate::typed::{
    call_flag, call_optional, call_optional_value, call_record, call_records, flag_reply,
    list_reply, optional_reply, optional_value_reply, record_reply,
};
use crate::types::{Arg, ArgView, IntoArg};
use vstd::prelude::*;

verus! {

/// A library that the daemon keeps in sync.
#[derive(Debug)]
pub struct Repo {
    pub id: String,
    pub name: String,
    pub worktree: String,
    pub auto_sync: bool,
}

/// The mathematical content of a [`Repo`].
pub struct RepoView {
    pub id: Seq<char>,
    pub name: Seq<char>,
    pub worktree: Seq<char>,
    pub auto_sync: bool,
}

impl View for Repo {
    type V = RepoView;

    open spec fn view(&self) -> RepoView {
        RepoView {
            id: self.id@,
            name: self.name@,
            worktree: self.worktree@,
            auto_sync: self.auto_sync,
        }
    }
}

/// A `Repo` is read from an object. Required are
/// `id`, `name`, `worktree`;
/// the other fields default to empty, false or zero.
impl FromDocument for Repo {
    open spec fn decoded(doc: Json) -> Option<RepoView> {
        let id = field(doc, "id"@, |d: Json| <String as FromDocument>::decoded(d), None);
        let name = field(doc, "name"@, |d: Json| <String as FromDocument>::decoded(d), None);
        let worktree = field(
            doc,
            "worktree"@,
            |d: Json| <String as FromDocument>::decoded(d),
            None,
        );
        let auto_sync = field(
            doc,
            "auto_sync"@,
            |d: Json| <bool as FromDocument>::decoded(d),
            Some(false),
        );
        if doc is Object && id is Some && name is Some && worktree is Some && auto_sync is Some {
            Some(RepoView {
                id: id->0,
                name: name->0,
                worktree: worktree->0,
                auto_sync: auto_sync->0,
            })
        } else {
            None
        }
    }

    fn from_document(doc: &JsonValue) -> (result: Result<Repo, SearpcError>) {
        if !doc.is_object() {
            return Err(not_an_object());
        }
        let id = match required::<String>(doc, "id") {
            Ok(value) => value,
            Err(e) => {
                return Err(e);
            },
        };
        let name = match required::<String>(doc, "name") {
            Ok(value) => value,
            Err(e) => {
                return Err(e);
            },
        };
        let worktree = match required::<String>(doc, "worktree") {
            Ok(value) => value,
            Err(e) => {
                return Err(e);
            },
        };
        let auto_sync = match optional::<bool>(doc, "auto_sync", false) {
            Ok(value) => value,
            Err(e) => {
                return Err(e);
            },
        };
        Ok(Repo { id, name, worktree, auto_sync })
    }
}

/// The state of one clone in progress.
#[derive(Debug)]
pub struct CloneTask {
    pub repo_id: String,
    pub repo_name: String,
    pub state: String,
    pub error: i32,
}

/// The mathematical content of a [`CloneTask`].
pub struct CloneTaskView {
    pub repo_id: Seq<char>,
    pub repo_name: Seq<char>,
    pub state: Seq<char>,
    pub error: i32,
}

impl View for CloneTask {
    type V = CloneTaskView;

    open spec fn view(&self) -> CloneTaskView {
        CloneTaskView {
            repo_id: self.repo_id@,
            repo_name: self.repo_name@,
            state: self.state@,
            error: self.error,
        }
    }
}

/// A `CloneTask` is read from an object; a field that is missing is empty or
/// zero.
impl FromDocument for CloneTask {
    open spec fn decoded(doc: Json) -> Option<CloneTaskView> {
        let repo_id = field(
            doc,
            "repo_id"@,
            |d: Json| <String as FromDocument>::decoded(d),
            Some(Seq::<char>::empty()),
        );
        let repo_name = field(
            doc,
            "repo_name"@,
            |d: Json| <String as FromDocument>::decoded(d),
            Some(Seq::<char>::empty()),
        );
        let state = field(
            doc,
            "state"@,
            |d: Json| <String as FromDocument>::decoded(d),
            Some(Seq::<char>::empty()),
        );
        let error = field(doc, "error"@, |d: Json| <i32 as FromDocument>::decoded(d), Some(0i32));
        if doc is Object && repo_id is Some && repo_name is Some && state is Some && error is Some {
            Some(CloneTaskView {
                repo_id: repo_id->0,
                repo_name: repo_name->0,
                state: state->0,
                error: error->0,
            })
        } else {
            None
        }
    }

    fn from_document(doc: &JsonValue) -> (result: Result<CloneTask, SearpcError>) {
        if !doc.is_object() {
            return Err(not_an_object());
        }
        let repo_id = match optional::<String>(doc, "repo_id", String::new()) {
            Ok(value) => value,
            Err(e) => {
                return Err(e);
            },
        };
        let repo_name = match optional::<String>(doc, "repo_name", String::new()) {
            Ok(value) => value,
            Err(e) => {
                return Err(e);
            },
        };
        let state = match optional::<String>(doc, "state", String::new()) {
            Ok(value) => value,
            Err(e) => {
                return Err(e);
            },
        };
        let error = match optional::<i32>(doc, "error", 0i32) {
            Ok(value) => value,
            Err(e) => {
                return Err(e);
            },
        };
        Ok(CloneTask { repo_id, repo_name, state, error })
    }
}

/// The state of one library's synchronisation.
#[derive(Debug)]
pub struct SyncTask {
    pub repo_id: String,
    pub state: String,
    pub error: i32,
}

/// The mathematical content of a [`SyncTask`].
pub struct SyncTaskView {
    pub repo_id: Seq<char>,
    pub state: Seq<char>,
    pub error: i32,
}

impl View for SyncTask {
    type V = SyncTaskView;

    open spec fn view(&self) -> SyncTaskView {
        SyncTaskView {
            repo_id: self.repo_id@,
            state: self.state@,
            error: self.error,
        }
    }
}

/// A `SyncTask` is read from an object; a field that is missing is empty or
/// zero.
impl FromDocument for SyncTask {
    open spec fn decoded(doc: Json) -> Option<SyncTaskView> {
        let repo_id = field(
            doc,
            "repo_id"@,
            |d: Json| <String as FromDocument>::decoded(d),
            Some(Seq::<char>::empty()),
        );
        let state = field(
            doc,
            "state"@,
            |d: Json| <String as FromDocument>::decoded(d),
            Some(Seq::<char>::empty()),
        );
        let error = field(doc, "error"@, |d: Json| <i32 as FromDocument>::decoded(d), Some(0i32));
        if doc is Object && repo_id is Some && state is Some && error is Some {
            Some(SyncTaskView {
                repo_id: repo_id->0,
                state: state->0,
                error: error->0,
            })
        } else {
            None
        }
    }

    fn from_document(doc: &JsonValue) -> (result: Result<SyncTask, SearpcError>) {
        if !doc.is_object() {
            return Err(not_an_object());
        }
        let repo_id = match optional::<String>(doc, "repo_id", String::new()) {
            Ok(value) => value,
            Err(e) => {
                return Err(e);
            },
        };
        let state = match optional::<String>(doc, "state", String::new()) {
            Ok(value) => value,
            Err(e) => {
                return Err(e);
            },
        };
        let error = match optional::<i32>(doc, "error", 0i32) {
            Ok(value) => value,
            Err(e) => {
                return Err(e);
            },
        };
        Ok(SyncTask { repo_id, state, error })
    }
}

/// The progress of one transfer.
#[derive(Debug)]
pub struct TransferTask {
    pub repo_id: String,
    pub block_done: i64,
    pub block_total: i64,
    pub rate: i64,
    pub rt_state: String,
    pub fs_objects_done: i64,
    pub fs_objects_total: i64,
}

/// The mathematical content of a [`TransferTask`].
pub struct TransferTaskView {
    pub repo_id: Seq<char>,
    pub block_done: i64,
    pub block_total: i64,
    pub rate: i64,
    pub rt_state: Seq<char>,
    pub fs_objects_done: i64,
    pub fs_objects_total: i64,
}

impl View for TransferTask {
    type V = TransferTaskView;

    open spec fn view(&self) -> TransferTaskView {
        TransferTaskView {
            repo_id: self.repo_id@,
            block_done: self.block_done,
            block_total: self.block_total,
            rate: self.rate,
            rt_state: self.rt_state@,
            fs_objects_done: self.fs_objects_done,
            fs_objects_total: self.fs_objects_total,
        }
    }
}

/// A `TransferTask` is read from an object. Required are
/// `repo_id`, `block_done`, `block_total`, `rate`;
/// the other fields default to empty, false or zero.
impl FromDocument for TransferTask {
    open spec fn decoded(doc: Json) -> Option<TransferTaskView> {
        let repo_id = field(doc, "repo_id"@, |d: Json| <String as FromDocument>::decoded(d), None);
        let block_done = field(
            doc,
            "block_done"@,
            |d: Json| <i64 as FromDocument>::decoded(d),
            None,
        );
        let block_total = field(
            doc,
            "block_total"@,
            |d: Json| <i64 as FromDocument>::decoded(d),
            None,
        );
        let rate = field(doc, "rate"@, |d: Json| <i64 as FromDocument>::decoded(d), None);
        let rt_state = field(
            doc,
            "rt_state"@,
            |d: Json| <String as FromDocument>::decoded(d),
            Some(Seq::<char>::empty()),
        );
        let fs_objects_done = field(
            doc,
            "fs_objects_done"@,
            |d: Json| <i64 as FromDocument>::decoded(d),
            Some(0i64),
        );
        let fs_objects_total = field(
            doc,
            "fs_objects_total"@,
            |d: Json| <i64 as FromDocument>::decoded(d),
            Some(0i64),
        );
        if doc is Object
            && repo_id is Some
            && block_done is Some
            && block_total is Some
            && rate is Some
            && rt_state is Some
            && fs_objects_done is Some
            && fs_objects_total is Some {
            Some(TransferTaskView {
                repo_id: repo_id->0,
                block_done: block_done->0,
                block_total: block_total->0,
                rate: rate->0,
                rt_state: rt_state->0,
                fs_objects_done: fs_objects_done->0,
                fs_objects_total: fs_objects_total->0,
            })
        } else {
            None
        }
    }

    fn from_document(doc: &JsonValue) -> (result: Result<TransferTask, SearpcError>) {
        if !doc.is_object() {
            return Err(not_an_object());
        }
        let repo_id = match required::<String>(doc, "repo_id") {
            Ok(value) => value,
            Err(e) => {
                return Err(e);
            },
        };
        let block_done = match required::<i64>(doc, "block_done") {
            Ok(value) => value,
            Err(e) => {
                return Err(e);
            },
        };
        let block_total = match required::<i64>(doc, "block_total") {
            Ok(value) => value,
            Err(e) => {
                return Err(e);
            },
        };
        let rate = match required::<i64>(doc, "rate") {
            Ok(value) => value,
            Err(e) => {
                return Err(e);
            },
        };
        let rt_state = match optional::<String>(doc, "rt_state", String::new()) {
            Ok(value) => value,
            Err(e) => {
                return Err(e);
            },
        };
        let fs_objects_done = match optional::<i64>(doc, "fs_objects_done", 0i64) {
            Ok(value) => value,
            Err(e) => {
                return Err(e);
            },
        };
        let fs_objects_total = match optional::<i64>(doc, "fs_objects_total", 0i64) {
            Ok(value) => value,
            Err(e) => {
                return Err(e);
            },
        };
        Ok(
            TransferTask {
                repo_id,
                block_done,
                block_total,
                rate,
                rt_state,
                fs_objects_done,
                fs_objects_total,
            },
        )
    }
}

/// The methods of the Seafile daemon. Each is one call under the wire name
/// that the prefix `seafile` gives it, unless it names another.
pub trait SeafileRpc {
    /// The libraries from `start` on, at most `limit` of them; -1 stands for all.
    fn get_repo_list(&mut self, start: i32, limit: i32) -> Result<Vec<Repo>, SearpcError>;

    /// The clones in progress.
    fn get_clone_tasks(&mut self) -> Result<Vec<CloneTask>, SearpcError>;

    /// The synchronisation task of a library, if it has one.
    fn get_repo_sync_task(&mut self, repo_id: &str) -> Result<Option<SyncTask>, SearpcError>;

    /// The transfer task of a library.
    fn find_transfer_task(&mut self, repo_id: &str) -> Result<TransferTask, SearpcError>;

    /// Whether automatic synchronisation is on.
    fn is_auto_sync_enabled(&mut self) -> Result<bool, SearpcError>;

    /// The message for a synchronisation error.
    fn sync_error_id_to_str(&mut self, error_id: i32) -> Result<String, SearpcError>;

    /// The value of a configuration key.
    fn get_config(&mut self, key: &str) -> Result<String, SearpcError>;

    /// Sets a configuration key.
    fn set_config(&mut self, key: &str, value: &str) -> Result<i32, SearpcError>;

    /// Sets a configuration key to an integer.
    fn set_config_int(&mut self, key: &str, value: i32) -> Result<i32, SearpcError>;

    /// Removes a library.
    fn remove_repo(&mut self, repo_id: &str) -> Result<i32, SearpcError>;

    /// Downloads a library into a new directory. The password, the magic and
    /// the random key are absent for a library that is not encrypted.
    fn download(
        &mut self,
        repo_id: &str,
        repo_version: i32,
        repo_name: &str,
        worktree: &str,
        token: &str,
        passwd: Option<&str>,
        magic: Option<&str>,
        email: &str,
        random_key: Option<&str>,
        enc_version: i32,
        more_info: &str,
    ) -> Result<Option<String>, SearpcError>;

    /// Clones a library into an existing directory; the arguments are those of
    /// `download`.
    fn clone(
        &mut self,
        repo_id: &str,
        repo_version: i32,
        repo_name: &str,
        worktree: &str,
        token: &str,
        passwd: Option<&str>,
        magic: Option<&str>,
        email: &str,
        random_key: Option<&str>,
        enc_version: i32,
        more_info: &str,
    ) -> Result<Option<String>, SearpcError>;

    /// Stops the daemon.
    fn shutdown(&mut self) -> Result<i32, SearpcError>;
}

impl<T: Transport> SeafileRpc for SearpcClient<T> {
    fn get_repo_list(
        &mut self,
        start: i32,
        limit: i32,
    ) -> (result: Result<Vec<Repo>, SearpcError>)
        ensures
            one_round_trip(
                old(self).history(),
                final(self).history(),
                "seafile_get_repo_list"@,
                seq![ArgView::Int(start), ArgView::Int(limit)],
            ),
            records_outcome(result) == list_reply::<Repo>(
                raw_outcome(
                    final(self).history(),
                    "seafile_get_repo_list"@,
                    seq![ArgView::Int(start), ArgView::Int(limit)],
                ),
            ),
    {
        let mut args: Vec<Arg> = Vec::new();
        args.push(start.into_arg());
        args.push(limit.into_arg());
        assert(arg_views(args@) =~= seq![ArgView::Int(start), ArgView::Int(limit)]);
        call_records(self, "seafile_get_repo_list", args)
    }

    fn get_clone_tasks(&mut self) -> (result: Result<Vec<CloneTask>, SearpcError>)
        ensures
            one_round_trip(
                old(self).history(),
                final(self).history(),
                "seafile_get_clone_tasks"@,
                Seq::<ArgView>::empty(),
            ),
            records_outcome(result) == list_reply::<CloneTask>(
                raw_outcome(
                    final(self).history(),
                    "seafile_get_clone_tasks"@,
                    Seq::<ArgView>::empty(),
                ),
            ),
    {
        let args: Vec<Arg> = Vec::new();
        assert(arg_views(args@) =~= Seq::<ArgView>::empty());
        call_records(self, "seafile_get_clone_tasks", args)
    }

    fn get_repo_sync_task(
        &mut self,
        repo_id: &str,
    ) -> (result: Result<Option<SyncTask>, SearpcError>)
        ensures
            one_round_trip(
                old(self).history(),
                final(self).history(),
                "seafile_get_repo_sync_task"@,
                seq![ArgView::String(repo_id@)],
            ),
            optional_outcome(result) == optional_reply::<SyncTask>(
                raw_outcome(
                    final(self).history(),
                    "seafile_get_repo_sync_task"@,
                    seq![ArgView::String(repo_id@)],
                ),
            ),
    {
        let mut args: Vec<Arg> = Vec::new();
        args.push(repo_id.into_arg());
        assert(arg_views(args@) =~= seq![ArgView::String(repo_id@)]);
        call_optional(self, "seafile_get_repo_sync_task", args)
    }

    fn find_transfer_task(
        &mut self,
        repo_id: &str,
    ) -> (result: Result<TransferTask, SearpcError>)
        ensures
            one_round_trip(
                old(self).history(),
                final(self).history(),
                "seafile_find_transfer_task"@,
                seq![ArgView::String(repo_id@)],
            ),
            outcome(result) == record_reply::<TransferTask>(
                raw_outcome(
                    final(self).history(),
                    "seafile_find_transfer_task"@,
                    seq![ArgView::String(repo_id@)],
                ),
            ),
    {
        let mut args: Vec<Arg> = Vec::new();
        args.push(repo_id.into_arg());
        assert(arg_views(args@) =~= seq![ArgView::String(repo_id@)]);
        call_record(self, "seafile_find_transfer_task", args)
    }

    fn is_auto_sync_enabled(&mut self) -> (result: Result<bool, SearpcError>)
        ensures
            one_round_trip(
                old(self).history(),
                final(self).history(),
                "seafile_is_auto_sync_enabled"@,
                Seq::<ArgView>::empty(),
            ),
            outcome(result) == flag_reply(
                raw_outcome(
                    final(self).history(),
                    "seafile_is_auto_sync_enabled"@,
                    Seq::<ArgView>::empty(),
                ),
            ),
    {
        let args: Vec<Arg> = Vec::new();
        assert(arg_views(args@) =~= Seq::<ArgView>::empty());
        call_flag(self, "seafile_is_auto_sync_enabled", args)
    }

    fn sync_error_id_to_str(&mut self, error_id: i32) -> (result: Result<String, SearpcError>)
        ensures
            one_round_trip(
                old(self).history(),
                final(self).history(),
                "seafile_sync_error_id_to_str"@,
                seq![ArgView::Int(error_id)],
            ),
            outcome(result) == and_then(
                raw_outcome(
                    final(self).history(),
                    "seafile_sync_error_id_to_str"@,
                    seq![ArgView::Int(error_id)],
                ),
                |v: Json| string_outcome(v),
            ),
    {
        let mut args: Vec<Arg> = Vec::new();
        args.push(error_id.into_arg());
        assert(arg_views(args@) =~= seq![ArgView::Int(error_id)]);
        self.call_string("seafile_sync_error_id_to_str", args)
    }

    fn get_config(&mut self, key: &str) -> (result: Result<String, SearpcError>)
        ensures
            one_round_trip(
                old(self).history(),
                final(self).history(),
                "seafile_get_config"@,
                seq![ArgView::String(key@)],
            ),
            outcome(result) == and_then(
                raw_outcome(
                    final(self).history(),
                    "seafile_get_config"@,
                    seq![ArgView::String(key@)],
                ),
                |v: Json| string_outcome(v),
            ),
    {
        let mut args: Vec<Arg> = Vec::new();
        args.push(key.into_arg());
        assert(arg_views(args@) =~= seq![ArgView::String(key@)]);
        self.call_string("seafile_get_config", args)
    }

    fn set_config(&mut self, key: &str, value: &str) -> (result: Result<i32, SearpcError>)
        ensures
            one_round_trip(
                old(self).history(),
                final(self).history(),
                "seafile_set_config"@,
                seq![ArgView::String(key@), ArgView::String(value@)],
            ),
            outcome(result) == and_then(
                raw_outcome(
                    final(self).history(),
                    "seafile_set_config"@,
                    seq![ArgView::String(key@), ArgView::String(value@)],
                ),
                |v: Json| int_outcome(v),
            ),
    {
        let mut args: Vec<Arg> = Vec::new();
        args.push(key.into_arg());
        args.push(value.into_arg());
        assert(arg_views(args@) =~= seq![ArgView::String(key@), ArgView::String(value@)]);
        self.call_int("seafile_set_config", args)
    }

    fn set_config_int(&mut self, key: &str, value: i32) -> (result: Result<i32, SearpcError>)
        ensures
            one_round_trip(
                old(self).history(),
                final(self).history(),
                "seafile_set_config_int"@,
                seq![ArgView::String(key@), ArgView::Int(value)],
            ),
            outcome(result) == and_then(
                raw_outcome(
                    final(self).history(),
                    "seafile_set_config_int"@,
                    seq![ArgView::String(key@), ArgView::Int(value)],
                ),
                |v: Json| int_outcome(v),
            ),
    {
        let mut args: Vec<Arg> = Vec::new();
        args.push(key.into_arg());
        args.push(value.into_arg());
        assert(arg_views(args@) =~= seq![ArgView::String(key@), ArgView::Int(value)]);
        self.call_int("seafile_set_config_int", args)
    }

    fn remove_repo(&mut self, repo_id: &str) -> (result: Result<i32, SearpcError>)
        ensures
            one_round_trip(
                old(self).history(),
                final(self).history(),
                "seafile_destroy_repo"@,
                seq![ArgView::String(repo_id@)],
            ),
            outcome(result) == and_then(
                raw_outcome(
                    final(self).history(),
                    "seafile_destroy_repo"@,
                    seq![ArgView::String(repo_id@)],
                ),
                |v: Json| int_outcome(v),
            ),
    {
        let mut args: Vec<Arg> = Vec::new();
        args.push(repo_id.into_arg());
        assert(arg_views(args@) =~= seq![ArgView::String(repo_id@)]);
        self.call_int("seafile_destroy_repo", args)
    }

    fn download(
        &mut self,
        repo_id: &str,
        repo_version: i32,
        repo_name: &str,
        worktree: &str,
        token: &str,
        passwd: Option<&str>,
        magic: Option<&str>,
        email: &str,
        random_key: Option<&str>,
        enc_version: i32,
        more_info: &str,
    ) -> (result: Result<Option<String>, SearpcError>)
        ensures
            one_round_trip(
                old(self).history(),
                final(self).history(),
                "seafile_download"@,
                seq![
                    ArgView::String(repo_id@),
                    ArgView::Int(repo_version),
                    ArgView::String(repo_name@),
                    ArgView::String(worktree@),
                    ArgView::String(token@),
                    passwd.arg(),
                    magic.arg(),
                    ArgView::String(email@),
                    random_key.arg(),
                    ArgView::Int(enc_version),
                    ArgView::String(more_info@),
                ],
            ),
            optional_outcome(result) == optional_value_reply::<String>(
                raw_outcome(
                    final(self).history(),
                    "seafile_download"@,
                    seq![
                        ArgView::String(repo_id@),
                        ArgView::Int(repo_version),
                        ArgView::String(repo_name@),
                        ArgView::String(worktree@),
                        ArgView::String(token@),
                        passwd.arg(),
                        magic.arg(),
                        ArgView::String(email@),
                        random_key.arg(),
                        ArgView::Int(enc_version),
                        ArgView::String(more_info@),
                    ],
                ),
            ),
    {
        let mut args: Vec<Arg> = Vec::new();
        args.push(repo_id.into_arg());
        args.push(repo_version.into_arg());
        args.push(repo_name.into_arg());
        args.push(worktree.into_arg());
        args.push(token.into_arg());
        args.push(passwd.into_arg());
        args.push(magic.into_arg());
        args.push(email.into_arg());
        args.push(random_key.into_arg());
        args.push(enc_version.into_arg());
        args.push(more_info.into_arg());
        assert(arg_views(args@) =~= seq![
            ArgView::String(repo_id@),
            ArgView::Int(repo_version),
            ArgView::String(repo_name@),
            ArgView::String(worktree@),
            ArgView::String(token@),
            passwd.arg(),
            magic.arg(),
            ArgView::String(email@),
            random_key.arg(),
            ArgView::Int(enc_version),
            ArgView::String(more_info@),
        ]);
        call_optional_value(self, "seafile_download", args)
    }

    fn clone(
        &mut self,
        repo_id: &str,
        repo_version: i32,
        repo_name: &str,
        worktree: &str,
        token: &str,
        passwd: Option<&str>,
        magic: Option<&str>,
        email: &str,
        random_key: Option<&str>,
        enc_version: i32,
        more_info: &str,
    ) -> (result: Result<Option<String>, SearpcError>)
        ensures
            one_round_trip(
                old(self).history(),
                final(self).history(),
                "seafile_clone"@,
                seq![
                    ArgView::String(repo_id@),
                    ArgView::Int(repo_version),
                    ArgView::String(repo_name@),
                    ArgView::String(worktree@),
                    ArgView::String(token@),
                    passwd.arg(),
                    magic.arg(),
                    ArgView::String(email@),
                    random_key.arg(),
                    ArgView::Int(enc_version),
                    ArgView::String(more_info@),
                ],
            ),
            optional_outcome(result) == optional_value_reply::<String>(
                raw_outcome(
                    final(self).history(),
                    "seafile_clone"@,
                    seq![
                        ArgView::String(repo_id@),
                        ArgView::Int(repo_version),
                        ArgView::String(repo_name@),
                        ArgView::String(worktree@),
                        ArgView::String(token@),
                        passwd.arg(),
                        magic.arg(),
                        ArgView::String(email@),
                        random_key.arg(),
                        ArgView::Int(enc_version),
                        ArgView::String(more_info@),
                    ],
                ),
            ),
    {
        let mut args: Vec<Arg> = Vec::new();
        args.push(repo_id.into_arg());
        args.push(repo_version.into_arg());
        args.push(repo_name.into_arg());
        args.push(worktree.into_arg());
        args.push(token.into_arg());
        args.push(passwd.into_arg());
        args.push(magic.into_arg());
        args.push(email.into_arg());
        args.push(random_key.into_arg());
        args.push(enc_version.into_arg());
        args.push(more_info.into_arg());
        assert(arg_views(args@) =~= seq![
            ArgView::String(repo_id@),
            ArgView::Int(repo_version),
            ArgView::String(repo_name@),
            ArgView::String(worktree@),
            ArgView::String(token@),
            passwd.arg(),
            magic.arg(),
            ArgView::String(email@),
            random_key.arg(),
            ArgView::Int(enc_version),
            ArgView::String(more_info@),
        ]);
        call_optional_value(self, "seafile_clone", args)
    }

    fn shutdown(&mut self) -> (result: Result<i32, SearpcError>)
        ensures
            one_round_trip(
                old(self).history(),
                final(self).history(),
                "seafile_shutdown"@,
                Seq::<ArgView>::empty(),
            ),
            outcome(result) == and_then(
                raw_outcome(
                    final(self).history(),
                    "seafile_shutdown"@,
                    Seq::<ArgView>::empty(),
                ),
                |v: Json| int_outcome(v),
            ),
    {
        let args: Vec<Arg> = Vec::new();
        assert(arg_views(args@) =~= Seq::<ArgView>::empty());
        self.call_int("seafile_shutdown", args)
    }
}

} // verus!
