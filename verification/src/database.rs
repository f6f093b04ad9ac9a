//! The database handle: it is opened once, hands out column families
//! while it is open, and is given up once.
use vstd::prelude::*;
use crate::data_config::SdbRustDataFuncs;
use crate::engine::{CallModel, EngineCall};
use crate::family::SplinterColumnFamily;
use crate::status::SplinterError;

verus! {

/// The sizes that a database is created or opened with. The maximum key
/// size is the ceiling for every column family of the database.
#[derive(Debug, Clone, Copy, PartialEq, Eq, Structural)]
pub struct DBConfig {
    pub cache_size_bytes: usize,
    pub disk_size_bytes: usize,
    pub max_key_size: usize,
}

/// Where a database handle stands.
#[derive(Debug, Clone, Copy, PartialEq, Eq, Structural)]
pub enum DbState {
    /// Nothing was asked of the engine yet.
    Uninitialized,
    /// The engine was asked to create or open; its status is awaited.
    Opening,
    /// The database is open.
    Open,
    /// The engine refused to create or open.
    Failed,
}

/// A handle on a database that holds column families.
#[derive(Debug)]
pub struct SplinterDBWithColumnFamilies {
    state: DbState,
    ceiling: u64,
}

/// The call that creates or opens a database.
pub open spec fn open_call(path: Seq<u8>, cfg: DBConfig, open_existing: bool) -> CallModel {
    if open_existing {
        CallModel::Open {
            path,
            cache_size: cfg.cache_size_bytes as u64,
            disk_size: cfg.disk_size_bytes as u64,
            max_key_size: cfg.max_key_size as u64,
        }
    } else {
        CallModel::Create {
            path,
            cache_size: cfg.cache_size_bytes as u64,
            disk_size: cfg.disk_size_bytes as u64,
            max_key_size: cfg.max_key_size as u64,
        }
    }
}

/// What a handle in `state` with key-size ceiling `ceiling` answers when
/// a column family with `max_key_size` is asked for: the family is
/// refused unless the database is open, and refused where it wants
/// longer keys than the database allows.
pub open spec fn family_request(state: DbState, ceiling: u64, max_key_size: u64) -> Result<
    CallModel,
    SplinterError,
> {
    if state != DbState::Open {
        Err(SplinterError::BadState)
    } else if max_key_size > ceiling {
        Err(SplinterError::MaxKeySizeExceeded { requested: max_key_size, ceiling })
    } else {
        Ok(CallModel::FamilyCreate { max_key_size })
    }
}

impl SplinterDBWithColumnFamilies {
    /// Where the handle stands.
    pub closed spec fn state(&self) -> DbState {
        self.state
    }

    /// The key-size ceiling that the handle was opened with.
    pub closed spec fn ceiling(&self) -> u64 {
        self.ceiling
    }

    /// A handle of which nothing was asked yet.
    pub fn new() -> (db: SplinterDBWithColumnFamilies)
        ensures
            db.state() == DbState::Uninitialized,
            db.ceiling() == 0,
    {
        SplinterDBWithColumnFamilies { state: DbState::Uninitialized, ceiling: 0 }
    }

    fn db_create_or_open<'a>(
        &mut self,
        path: &'a [u8],
        cfg: &DBConfig,
        open_existing: bool,
    ) -> (r: Result<EngineCall<'a>, SplinterError>)
        ensures
            old(self).state() != DbState::Uninitialized ==> r == Err::<EngineCall, _>(
                SplinterError::BadState,
            ) && *final(self) == *old(self),
            old(self).state() == DbState::Uninitialized ==> r is Ok && r->Ok_0@ == open_call(
                path@,
                *cfg,
                open_existing,
            ) && final(self).state() == DbState::Opening && final(self).ceiling()
                == cfg.max_key_size as u64,
    {
        if self.state != DbState::Uninitialized {
            return Err(SplinterError::BadState);
        }
        self.state = DbState::Opening;
        self.ceiling = cfg.max_key_size as u64;
        let cache_size = cfg.cache_size_bytes as u64;
        let disk_size = cfg.disk_size_bytes as u64;
        let max_key_size = cfg.max_key_size as u64;
        if open_existing {
            Ok(EngineCall::Open { path, cache_size, disk_size, max_key_size })
        } else {
            Ok(EngineCall::Create { path, cache_size, disk_size, max_key_size })
        }
    }

    /// Asks for a new database at `path`. A handle that was used before
    /// refuses and stays as it is; a fresh one gives the call to make and
    /// waits for its status, which goes to [`Self::db_opened`].
    pub fn db_create<'a>(&mut self, path: &'a [u8], cfg: &DBConfig) -> (r: Result<
        EngineCall<'a>,
        SplinterError,
    >)
        ensures
            old(self).state() != DbState::Uninitialized ==> r == Err::<EngineCall, _>(
                SplinterError::BadState,
            ) && *final(self) == *old(self),
            old(self).state() == DbState::Uninitialized ==> r is Ok && r->Ok_0@ == open_call(
                path@,
                *cfg,
                false,
            ) && final(self).state() == DbState::Opening && final(self).ceiling()
                == cfg.max_key_size as u64,
    {
        self.db_create_or_open(path, cfg, false)
    }

    /// Asks for the database that exists at `path`. A handle that was
    /// used before refuses and stays as it is; a fresh one gives the call
    /// to make and waits for its status, which goes to
    /// [`Self::db_opened`].
    pub fn db_open<'a>(&mut self, path: &'a [u8], cfg: &DBConfig) -> (r: Result<
        EngineCall<'a>,
        SplinterError,
    >)
        ensures
            old(self).state() != DbState::Uninitialized ==> r == Err::<EngineCall, _>(
                SplinterError::BadState,
            ) && *final(self) == *old(self),
            old(self).state() == DbState::Uninitialized ==> r is Ok && r->Ok_0@ == open_call(
                path@,
                *cfg,
                true,
            ) && final(self).state() == DbState::Opening && final(self).ceiling()
                == cfg.max_key_size as u64,
    {
        self.db_create_or_open(path, cfg, true)
    }

    /// Takes the status of the create or open call. Status zero opens the
    /// handle; any other status is reported with its code and leaves the
    /// handle failed. A handle that awaits no status refuses and stays as
    /// it is.
    pub fn db_opened(&mut self, rc: i32) -> (r: Result<(), SplinterError>)
        ensures
            final(self).ceiling() == old(self).ceiling(),
            old(self).state() != DbState::Opening ==> r == Err::<(), _>(SplinterError::BadState)
                && final(self).state() == old(self).state(),
            old(self).state() == DbState::Opening && rc == 0 ==> r == Ok::<(), SplinterError>(())
                && final(self).state() == DbState::Open,
            old(self).state() == DbState::Opening && rc != 0 ==> r == Err::<(), _>(
                SplinterError::Engine { code: rc },
            ) && final(self).state() == DbState::Failed,
    {
        if self.state != DbState::Opening {
            return Err(SplinterError::BadState);
        }
        if rc == 0 {
            self.state = DbState::Open;
            Ok(())
        } else {
            self.state = DbState::Failed;
            Err(SplinterError::Engine { code: rc })
        }
    }

    /// Whether the database is open.
    pub fn is_open(&self) -> (r: bool)
        ensures
            r == (self.state() == DbState::Open),
    {
        self.state == DbState::Open
    }

    /// The key-size ceiling that the handle was opened with.
    pub fn max_key_size(&self) -> (r: u64)
        ensures
            r == self.ceiling(),
    {
        self.ceiling
    }

    /// The call by which a thread registers with the database before its
    /// first operation. Only an open database takes registrations.
    pub fn register_thread(&self) -> (r: Result<EngineCall<'static>, SplinterError>)
        ensures
            self.state() == DbState::Open ==> r is Ok && r->Ok_0@ == CallModel::RegisterThread,
            self.state() != DbState::Open ==> r == Err::<EngineCall, _>(SplinterError::BadState),
    {
        if self.state == DbState::Open {
            Ok(EngineCall::RegisterThread)
        } else {
            Err(SplinterError::BadState)
        }
    }

    /// The call by which a thread takes its registration back after its
    /// last operation.
    pub fn deregister_thread(&self) -> (r: Result<EngineCall<'static>, SplinterError>)
        ensures
            self.state() == DbState::Open ==> r is Ok && r->Ok_0@ == CallModel::DeregisterThread,
            self.state() != DbState::Open ==> r == Err::<EngineCall, _>(SplinterError::BadState),
    {
        if self.state == DbState::Open {
            Ok(EngineCall::DeregisterThread)
        } else {
            Err(SplinterError::BadState)
        }
    }

    /// Asks for a column family of values of type `T` whose keys are at
    /// most `max_key_size` bytes long. The family's keys are ordered and
    /// its values merged by the data functions of `T`, which the caller
    /// binds into the engine's configuration record when it makes the
    /// call. The request is refused here, before the engine hears of it,
    /// where the database is not open or allows only shorter keys.
    pub fn column_family_create<T: SdbRustDataFuncs>(&self, max_key_size: u64) -> (r: Result<
        EngineCall<'static>,
        SplinterError,
    >)
        ensures
            match family_request(self.state(), self.ceiling(), max_key_size) {
                Ok(call) => r is Ok && r->Ok_0@ == call,
                Err(e) => r == Err::<EngineCall, _>(e),
            },
    {
        if self.state != DbState::Open {
            Err(SplinterError::BadState)
        } else if max_key_size > self.ceiling {
            Err(SplinterError::MaxKeySizeExceeded { requested: max_key_size, ceiling: self.ceiling })
        } else {
            Ok(EngineCall::FamilyCreate { max_key_size })
        }
    }

    /// The column family behind the handle that the engine gave for a
    /// request of [`Self::column_family_create`]. It is refused on the
    /// same grounds as the request.
    pub fn column_family_attach(&self, max_key_size: u64, handle: u64) -> (r: Result<
        SplinterColumnFamily,
        SplinterError,
    >)
        ensures
            match family_request(self.state(), self.ceiling(), max_key_size) {
                Ok(call) => r is Ok && r->Ok_0.handle() == handle && r->Ok_0.max_key_size()
                    == max_key_size && r->Ok_0.max_key_size() <= self.ceiling(),
                Err(e) => r == Err::<SplinterColumnFamily, _>(e),
            },
    {
        if self.state != DbState::Open {
            Err(SplinterError::BadState)
        } else if max_key_size > self.ceiling {
            Err(SplinterError::MaxKeySizeExceeded { requested: max_key_size, ceiling: self.ceiling })
        } else {
            Ok(SplinterColumnFamily::new(handle, max_key_size))
        }
    }

    /// Gives the handle up. Where the engine was ever asked to create or
    /// open, the call that comes back releases the database and its
    /// configuration block; since the handle is consumed, it is issued
    /// once. A handle of which nothing was asked has nothing to release.
    pub fn close(self) -> (r: Option<EngineCall<'static>>)
        ensures
            self.state() == DbState::Uninitialized ==> r is None,
            self.state() != DbState::Uninitialized ==> r is Some && r->Some_0@ == CallModel::Close,
    {
        if self.state == DbState::Uninitialized {
            None
        } else {
            Some(EngineCall::Close)
        }
    }
}

} // verus!
