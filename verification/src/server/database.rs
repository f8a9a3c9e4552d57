//! What the build store keeps: four tables of rows, and the advisory locks that
//! transactions hold. A row is found by its identifier, the first such row in its table.

use crate::text::same_text;
use vstd::prelude::*;
use vstd::string::*;

verus! {

/// A product that builds are rolled out for.
#[derive(Debug)]
pub struct Application {
    pub id: u128,
    pub name: String,
    pub description: String,
    /// Milliseconds since the Unix epoch.
    pub created_at: i64,
}

/// A release of an application.
#[derive(Debug)]
pub struct ApplicationVersion {
    pub id: u128,
    pub app_id: u128,
    pub version: String,
    /// Whether this release is the one the fleet is to run.
    pub latest: bool,
}

/// The artifact of one release for one architecture.
#[derive(Debug)]
pub struct ApplicationBuild {
    pub id: u128,
    pub app_version_id: u128,
    /// The architecture tag.
    pub build_version: String,
    pub success_count: u32,
    pub failed_count: u32,
    pub url: String,
    pub disabled: bool,
}

/// A member of the fleet, with the version it last said it runs.
#[derive(Debug)]
pub struct Client {
    pub id: u128,
    pub app_id: u128,
    /// Milliseconds since the Unix epoch.
    pub updated_at: i64,
    pub version: String,
    pub enabled: bool,
    /// Milliseconds since the Unix epoch.
    pub created_at: i64,
}

/// An advisory lock on `key`, held by the transaction `holder`.
#[derive(Debug, Clone, Copy, PartialEq, Eq, Structural)]
pub struct AdvisoryLock {
    pub key: u128,
    pub holder: u64,
}

/// A row with an identifier.
pub trait Row: Sized {
    spec fn row_id(&self) -> u128;

    fn id(&self) -> (r: u128)
        ensures
            r == self.row_id(),
    ;

    /// The same row once more.
    fn copy(&self) -> (r: Self)
        ensures
            r == *self,
    ;
}

impl Row for Application {
    open spec fn row_id(&self) -> u128 {
        self.id
    }

    fn id(&self) -> (r: u128) {
        self.id
    }

    fn copy(&self) -> (r: Self) {
        Application {
            id: self.id,
            name: self.name.clone(),
            description: self.description.clone(),
            created_at: self.created_at,
        }
    }
}

impl Row for ApplicationVersion {
    open spec fn row_id(&self) -> u128 {
        self.id
    }

    fn id(&self) -> (r: u128) {
        self.id
    }

    fn copy(&self) -> (r: Self) {
        ApplicationVersion {
            id: self.id,
            app_id: self.app_id,
            version: self.version.clone(),
            latest: self.latest,
        }
    }
}

impl Row for ApplicationBuild {
    open spec fn row_id(&self) -> u128 {
        self.id
    }

    fn id(&self) -> (r: u128) {
        self.id
    }

    fn copy(&self) -> (r: Self) {
        ApplicationBuild {
            id: self.id,
            app_version_id: self.app_version_id,
            build_version: self.build_version.clone(),
            success_count: self.success_count,
            failed_count: self.failed_count,
            url: self.url.clone(),
            disabled: self.disabled,
        }
    }
}

impl Row for Client {
    open spec fn row_id(&self) -> u128 {
        self.id
    }

    fn id(&self) -> (r: u128) {
        self.id
    }

    fn copy(&self) -> (r: Self) {
        Client {
            id: self.id,
            app_id: self.app_id,
            updated_at: self.updated_at,
            version: self.version.clone(),
            enabled: self.enabled,
            created_at: self.created_at,
        }
    }
}

/// Whether some row of `rows` has the identifier `id`.
pub open spec fn has_id<T: Row>(rows: Seq<T>, id: u128) -> bool {
    exists|i: int| 0 <= i < rows.len() && (#[trigger] rows[i]).row_id() == id
}

/// Whether `i` is the place of the first row of `rows` with the identifier `id`.
pub open spec fn is_first_with_id<T: Row>(rows: Seq<T>, id: u128, i: int) -> bool {
    &&& 0 <= i < rows.len()
    &&& rows[i].row_id() == id
    &&& forall|j: int| 0 <= j < i ==> (#[trigger] rows[j]).row_id() != id
}

/// The place of the first row of `rows` with the identifier `id`, where there is one.
pub open spec fn place_of<T: Row>(rows: Seq<T>, id: u128) -> int {
    choose|i: int| is_first_with_id(rows, id, i)
}

/// The release `v` without the flag of the latest, where it is one of `app_id`.
pub open spec fn demoted(v: ApplicationVersion, app_id: u128) -> ApplicationVersion {
    if v.app_id == app_id {
        ApplicationVersion { latest: false, ..v }
    } else {
        v
    }
}

/// The releases with none of the application `app_id` flagged as the latest.
pub open spec fn without_latest(versions: Seq<ApplicationVersion>, app_id: u128) -> Seq<
    ApplicationVersion,
> {
    Seq::new(versions.len(), |k: int| demoted(versions[k], app_id))
}

/// The releases as they stand when a release of `app_id` is about to be entered: one
/// that comes as the latest takes that flag from the others.
pub open spec fn making_room(versions: Seq<ApplicationVersion>, app_id: u128, latest: bool) -> Seq<
    ApplicationVersion,
> {
    if latest {
        without_latest(versions, app_id)
    } else {
        versions
    }
}

/// Whether no application has two releases flagged as the latest.
pub open spec fn latest_is_unique(versions: Seq<ApplicationVersion>) -> bool {
    forall|i: int, j: int|
        0 <= i < j < versions.len() && (#[trigger] versions[i]).app_id == (
        #[trigger] versions[j]).app_id ==> !(versions[i].latest && versions[j].latest)
}

/// Whether no two rows of `rows` share an identifier.
pub open spec fn ids_differ<T: Row>(rows: Seq<T>) -> bool {
    forall|i: int, j: int|
        0 <= i < j < rows.len() ==> (#[trigger] rows[i]).row_id() != (#[trigger] rows[j]).row_id()
}

/// There is a first row with an identifier just where there is a row with it, and there
/// is one place only that is the first.
pub proof fn lemma_place_of<T: Row>(rows: Seq<T>, id: u128)
    ensures
        has_id(rows, id) ==> is_first_with_id(rows, id, place_of(rows, id)),
        forall|i: int| is_first_with_id(rows, id, i) ==> i == place_of(rows, id),
{
    if has_id(rows, id) {
        let w = choose|i: int| 0 <= i < rows.len() && (#[trigger] rows[i]).row_id() == id;
        lemma_first_exists(rows, id, w);
    }
    assert forall|i: int| is_first_with_id(rows, id, i) implies i == place_of(rows, id) by {
        let p = place_of(rows, id);
        assert(is_first_with_id(rows, id, p));
        if i < p {
            assert(rows[i].row_id() != id);
        } else if p < i {
            assert(rows[p].row_id() != id);
        }
    }
}

/// Below any row with the identifier there is a first one.
proof fn lemma_first_exists<T: Row>(rows: Seq<T>, id: u128, w: int)
    requires
        0 <= w < rows.len(),
        rows[w].row_id() == id,
    ensures
        exists|i: int| is_first_with_id(rows, id, i),
    decreases w,
{
    if exists|j: int| 0 <= j < w && (#[trigger] rows[j]).row_id() == id {
        let j = choose|j: int| 0 <= j < w && (#[trigger] rows[j]).row_id() == id;
        lemma_first_exists(rows, id, j);
    } else {
        assert(is_first_with_id(rows, id, w));
    }
}

/// The place of the first row with the identifier `id`.
pub fn position<T: Row>(rows: &Vec<T>, id: u128) -> (r: Option<usize>)
    ensures
        match r {
            Some(i) => is_first_with_id(rows@, id, i as int),
            None => !has_id(rows@, id),
        },
{
    let mut i: usize = 0;
    while i < rows.len()
        invariant
            i <= rows.len(),
            forall|j: int| 0 <= j < i ==> (#[trigger] rows@[j]).row_id() != id,
        decreases rows.len() - i,
    {
        if rows[i].id() == id {
            return Some(i);
        }
        i = i + 1;
    }
    None
}

/// The tables of the build store and the advisory locks that are held.
#[derive(Debug)]
pub struct Database {
    pub applications: Vec<Application>,
    pub versions: Vec<ApplicationVersion>,
    pub builds: Vec<ApplicationBuild>,
    pub clients: Vec<Client>,
    pub locks: Vec<AdvisoryLock>,
    /// How many transactions have begun; the next one takes this number.
    pub transactions: u64,
}

/// Which release a build is wanted of: the one with this version, or the latest.
pub open spec fn is_wanted(v: ApplicationVersion, version: Option<Seq<char>>) -> bool {
    match version {
        Some(text) => v.version@ == text,
        None => v.latest,
    }
}

/// Whether the transaction `transaction` is refused the lock on `key`: another holds it.
pub open spec fn is_held_by_another(locks: Seq<AdvisoryLock>, key: u128, transaction: u64) -> bool {
    exists|i: int|
        0 <= i < locks.len() && (#[trigger] locks[i]).key == key && locks[i].holder
            != transaction
}

/// The locks that are left of `locks` when `transaction` ends: those of the others, in
/// their order.
pub open spec fn locks_without(locks: Seq<AdvisoryLock>, transaction: u64) -> Seq<AdvisoryLock> {
    locks.filter(|l: AdvisoryLock| l.holder != transaction)
}

impl Database {
    /// Whether `post` has the tables of `self`, row for row.
    pub open spec fn same_tables(self, post: Database) -> bool {
        &&& post.applications@ == self.applications@
        &&& post.versions@ == self.versions@
        &&& post.builds@ == self.builds@
        &&& post.clients@ == self.clients@
    }

    /// Whether `post` is `self` with other rows in the table of builds.
    pub open spec fn same_but_builds(self, post: Database) -> bool {
        &&& post.applications@ == self.applications@
        &&& post.versions@ == self.versions@
        &&& post.clients@ == self.clients@
        &&& post.locks@ == self.locks@
        &&& post.transactions == self.transactions
    }

    /// Whether `post` is `self` with other rows in the table of clients.
    pub open spec fn same_but_clients(self, post: Database) -> bool {
        &&& post.applications@ == self.applications@
        &&& post.versions@ == self.versions@
        &&& post.builds@ == self.builds@
        &&& post.locks@ == self.locks@
        &&& post.transactions == self.transactions
    }

    /// Whether the identifiers tell the rows of each table apart.
    pub open spec fn keys_are_unique(self) -> bool {
        &&& ids_differ(self.applications@)
        &&& ids_differ(self.versions@)
        &&& ids_differ(self.builds@)
        &&& ids_differ(self.clients@)
    }

    /// Whether the build `b` is offered to an installation of application `app_id` on
    /// `architecture` that wants the release `version` (`None`: the latest): it is not
    /// disabled, it is for that architecture, and its release is one of that application
    /// and the one wanted.
    pub open spec fn offers(
        self,
        b: ApplicationBuild,
        app_id: u128,
        version: Option<Seq<char>>,
        architecture: Seq<char>,
    ) -> bool {
        &&& !b.disabled
        &&& b.build_version@ == architecture
        &&& exists|j: int|
            0 <= j < self.versions@.len() && (#[trigger] self.versions@[j]).id == b.app_version_id
                && self.versions@[j].app_id == app_id && is_wanted(self.versions@[j], version)
    }

    /// Whether `i` is the place of the first build that is offered.
    pub open spec fn is_first_offer(
        self,
        i: int,
        app_id: u128,
        version: Option<Seq<char>>,
        architecture: Seq<char>,
    ) -> bool {
        &&& 0 <= i < self.builds@.len()
        &&& self.offers(self.builds@[i], app_id, version, architecture)
        &&& forall|k: int|
            0 <= k < i ==> !self.offers(#[trigger] self.builds@[k], app_id, version, architecture)
    }

    /// The place of the first build that is offered, where one is.
    pub open spec fn first_offer(
        self,
        app_id: u128,
        version: Option<Seq<char>>,
        architecture: Seq<char>,
    ) -> int {
        choose|i: int| self.is_first_offer(i, app_id, version, architecture)
    }

    /// Whether no build is offered.
    pub open spec fn offers_nothing(
        self,
        app_id: u128,
        version: Option<Seq<char>>,
        architecture: Seq<char>,
    ) -> bool {
        forall|k: int|
            0 <= k < self.builds@.len() ==> !self.offers(
                #[trigger] self.builds@[k],
                app_id,
                version,
                architecture,
            )
    }

    /// A database without rows, locks or transactions.
    pub fn new() -> (db: Database)
        ensures
            db.applications@.len() == 0,
            db.versions@.len() == 0,
            db.builds@.len() == 0,
            db.clients@.len() == 0,
            db.locks@.len() == 0,
            db.transactions == 0,
            db.keys_are_unique(),
    {
        Database {
            applications: Vec::new(),
            versions: Vec::new(),
            builds: Vec::new(),
            clients: Vec::new(),
            locks: Vec::new(),
            transactions: 0,
        }
    }

    /// Whether the release `b.app_version_id` is one of `app_id` and the one wanted.
    fn release_is_wanted(&self, b: &ApplicationBuild, app_id: u128, version: &Option<&str>) -> (r:
        bool)
        ensures
            r == exists|j: int|
                0 <= j < self.versions@.len() && (#[trigger] self.versions@[j]).id
                    == b.app_version_id && self.versions@[j].app_id == app_id && is_wanted(
                    self.versions@[j],
                    match *version {
                        Some(text) => Some(text@),
                        None => None,
                    },
                ),
    {
        let ghost wanted: Option<Seq<char>> = match *version {
            Some(text) => Some(text@),
            None => None,
        };
        let mut j: usize = 0;
        while j < self.versions.len()
            invariant
                j <= self.versions@.len(),
                wanted == match *version {
                    Some(text) => Some(text@),
                    None => None::<Seq<char>>,
                },
                forall|k: int|
                    0 <= k < j ==> !((#[trigger] self.versions@[k]).id == b.app_version_id
                        && self.versions@[k].app_id == app_id && is_wanted(
                        self.versions@[k],
                        wanted,
                    )),
            decreases self.versions@.len() - j,
        {
            let v = &self.versions[j];
            if v.id == b.app_version_id && v.app_id == app_id {
                let fits = match version {
                    Some(text) => same_text(v.version.as_str(), text),
                    None => v.latest,
                };
                if fits {
                    return true;
                }
            }
            j = j + 1;
        }
        false
    }

    /// The first build that is offered to an installation of application `app_id` on
    /// `architecture` that wants the release `version`, or the latest where `version` is
    /// `None`. A disabled build is never offered.
    pub fn find_build(&self, app_id: u128, version: Option<&str>, architecture: &str) -> (r: Option<
        ApplicationBuild,
    >)
        ensures
            match r {
                Some(b) => {
                    &&& !b.disabled
                    &&& exists|i: int|
                        self.is_first_offer(
                            i,
                            app_id,
                            match version {
                                Some(text) => Some(text@),
                                None => None,
                            },
                            architecture@,
                        ) && b == self.builds@[i]
                },
                None => self.offers_nothing(
                    app_id,
                    match version {
                        Some(text) => Some(text@),
                        None => None,
                    },
                    architecture@,
                ),
            },
    {
        let ghost wanted: Option<Seq<char>> = match version {
            Some(text) => Some(text@),
            None => None,
        };
        let mut i: usize = 0;
        while i < self.builds.len()
            invariant
                i <= self.builds@.len(),
                wanted == match version {
                    Some(text) => Some(text@),
                    None => None::<Seq<char>>,
                },
                forall|k: int|
                    0 <= k < i ==> !self.offers(
                        #[trigger] self.builds@[k],
                        app_id,
                        wanted,
                        architecture@,
                    ),
            decreases self.builds@.len() - i,
        {
            let b = &self.builds[i];
            if !b.disabled && same_text(b.build_version.as_str(), architecture)
                && self.release_is_wanted(b, app_id, &version) {
                proof {
                    assert(self.is_first_offer(i as int, app_id, wanted, architecture@));
                }
                return Some(b.copy());
            }
            i = i + 1;
        }
        None
    }
}

/// The first row with the identifier `id`, once more.
pub fn fetch<T: Row>(rows: &Vec<T>, id: u128) -> (r: Option<T>)
    ensures
        r is Some <==> has_id(rows@, id),
        r matches Some(row) ==> row == rows@[place_of(rows@, id)] && row.row_id() == id,
{
    proof {
        lemma_place_of(rows@, id);
    }
    match position(rows, id) {
        Some(i) => Some(rows[i].copy()),
        None => None,
    }
}

/// The build `b` with one more success counted.
pub open spec fn with_success(b: ApplicationBuild) -> ApplicationBuild {
    ApplicationBuild { success_count: (b.success_count + 1) as u32, ..b }
}

/// The build `b` with one more failure counted.
pub open spec fn with_failure(b: ApplicationBuild) -> ApplicationBuild {
    ApplicationBuild { failed_count: (b.failed_count + 1) as u32, ..b }
}

/// The table of builds once a success was counted for the build `id`.
pub open spec fn after_success(builds: Seq<ApplicationBuild>, id: u128) -> Seq<ApplicationBuild> {
    builds.update(place_of(builds, id), with_success(builds[place_of(builds, id)]))
}

/// The table of builds once a failure was counted for the build `id`.
pub open spec fn after_failure(builds: Seq<ApplicationBuild>, id: u128) -> Seq<ApplicationBuild> {
    builds.update(place_of(builds, id), with_failure(builds[place_of(builds, id)]))
}

/// The successes counted for the build `id`.
pub open spec fn success_count_of(builds: Seq<ApplicationBuild>, id: u128) -> int {
    builds[place_of(builds, id)].success_count as int
}

/// The failures counted for the build `id`.
pub open spec fn failed_count_of(builds: Seq<ApplicationBuild>, id: u128) -> int {
    builds[place_of(builds, id)].failed_count as int
}

/// The client `c` once it has said at `now` that it runs `version`.
pub open spec fn is_updated_client(c: Client, version: Seq<char>, now: i64, post: Client) -> bool {
    &&& post.id == c.id
    &&& post.app_id == c.app_id
    &&& post.enabled == c.enabled
    &&& post.created_at == c.created_at
    &&& post.version@ == version
    &&& post.updated_at == now
}

impl Database {
    /// Whether `post` is `self`, table for table and lock for lock.
    pub open spec fn unchanged(self, post: Database) -> bool {
        &&& self.same_tables(post)
        &&& post.locks@ == self.locks@
        &&& post.transactions == self.transactions
    }

    /// Enters an application under the identifier `id`; `None`, and nothing entered,
    /// where the identifier is taken.
    pub fn insert_application(&mut self, id: u128, name: &str, description: &str, created_at: i64) -> (r:
        Option<Application>)
        ensures
            r is Some <==> !has_id(old(self).applications@, id),
            r matches Some(a) ==> {
                &&& a.id == id
                &&& a.name@ == name@
                &&& a.description@ == description@
                &&& a.created_at == created_at
                &&& final(self).applications@ == old(self).applications@.push(a)
                &&& final(self).versions@ == old(self).versions@
                &&& final(self).builds@ == old(self).builds@
                &&& final(self).clients@ == old(self).clients@
                &&& final(self).locks@ == old(self).locks@
                &&& final(self).transactions == old(self).transactions
            },
            r is None ==> old(self).unchanged(*final(self)),
            old(self).keys_are_unique() ==> final(self).keys_are_unique(),
    {
        if position(&self.applications, id).is_some() {
            return None;
        }
        let row = Application {
            id,
            name: String::from_str(name),
            description: String::from_str(description),
            created_at,
        };
        let given = row.copy();
        self.applications.push(row);
        Some(given)
    }

    /// Enters a release of the application `app_id` under the identifier `id`; `None`,
    /// and nothing entered, where the identifier is taken or there is no such
    /// application. A release that is entered as the latest takes that flag from every
    /// other release of its application.
    pub fn insert_application_version(
        &mut self,
        id: u128,
        app_id: u128,
        version: &str,
        latest: bool,
    ) -> (r: Option<ApplicationVersion>)
        ensures
            r is Some <==> !has_id(old(self).versions@, id) && has_id(
                old(self).applications@,
                app_id,
            ),
            r matches Some(v) ==> {
                &&& v.id == id
                &&& v.app_id == app_id
                &&& v.version@ == version@
                &&& v.latest == latest
                &&& final(self).versions@ == making_room(old(self).versions@, app_id, latest).push(
                    v,
                )
                &&& final(self).applications@ == old(self).applications@
                &&& final(self).builds@ == old(self).builds@
                &&& final(self).clients@ == old(self).clients@
                &&& final(self).locks@ == old(self).locks@
                &&& final(self).transactions == old(self).transactions
            },
            r is None ==> old(self).unchanged(*final(self)),
            old(self).keys_are_unique() ==> final(self).keys_are_unique(),
            latest_is_unique(old(self).versions@) ==> latest_is_unique(final(self).versions@),
    {
        if position(&self.versions, id).is_some() || position(&self.applications, app_id).is_none() {
            return None;
        }
        if latest {
            let mut i: usize = 0;
            while i < self.versions.len()
                invariant
                    i <= self.versions@.len(),
                    self.versions@.len() == old(self).versions@.len(),
                    forall|k: int|
                        0 <= k < i ==> self.versions@[k] == demoted(
                            #[trigger] old(self).versions@[k],
                            app_id,
                        ),
                    forall|k: int|
                        i <= k < self.versions@.len() ==> self.versions@[k]
                            == #[trigger] old(self).versions@[k],
                    self.applications == old(self).applications,
                    self.builds == old(self).builds,
                    self.clients == old(self).clients,
                    self.locks == old(self).locks,
                    self.transactions == old(self).transactions,
                decreases self.versions@.len() - i,
            {
                let v = &self.versions[i];
                if v.app_id == app_id && v.latest {
                    let row = ApplicationVersion {
                        id: v.id,
                        app_id: v.app_id,
                        version: v.version.clone(),
                        latest: false,
                    };
                    self.versions.set(i, row);
                }
                i = i + 1;
            }
            proof {
                assert(self.versions@ =~= without_latest(old(self).versions@, app_id));
            }
        }
        let row = ApplicationVersion { id, app_id, version: String::from_str(version), latest };
        let given = row.copy();
        self.versions.push(row);
        proof {
            let before = making_room(old(self).versions@, app_id, latest);
            assert forall|k: int| 0 <= k < before.len() implies (#[trigger] before[k]).row_id()
                == old(self).versions@[k].row_id() && (latest && before[k].app_id == app_id
                ==> !before[k].latest) && before[k].app_id == old(self).versions@[k].app_id && (
            before[k].latest ==> old(self).versions@[k].latest) by {}
            assert(!has_id(before, id)) by {
                if has_id(before, id) {
                    let w = choose|w: int| 0 <= w < before.len() && (#[trigger] before[w]).row_id() == id;
                    assert(old(self).versions@[w].row_id() == id);
                }
            }
            if latest_is_unique(old(self).versions@) {
                assert forall|a: int, b: int|
                    0 <= a < b < self.versions@.len() && (#[trigger] self.versions@[a]).app_id == (
                    #[trigger] self.versions@[b]).app_id implies !(self.versions@[a].latest
                    && self.versions@[b].latest) by {
                    if b < before.len() {
                        assert(before[a].latest ==> old(self).versions@[a].latest);
                        assert(before[b].latest ==> old(self).versions@[b].latest);
                    } else {
                        assert(self.versions@[a] == before[a]);
                    }
                }
            }
        }
        Some(given)
    }

    /// Enters a build of the release `app_version_id` under the identifier `id`, enabled
    /// and with nothing counted; `None`, and nothing entered, where the identifier is
    /// taken or there is no such release.
    pub fn insert_application_build(
        &mut self,
        id: u128,
        app_version_id: u128,
        build_version: &str,
        url: &str,
    ) -> (r: Option<ApplicationBuild>)
        ensures
            r is Some <==> !has_id(old(self).builds@, id) && has_id(
                old(self).versions@,
                app_version_id,
            ),
            r matches Some(b) ==> {
                &&& b.id == id
                &&& b.app_version_id == app_version_id
                &&& b.build_version@ == build_version@
                &&& b.url@ == url@
                &&& b.success_count == 0
                &&& b.failed_count == 0
                &&& !b.disabled
                &&& final(self).builds@ == old(self).builds@.push(b)
                &&& old(self).same_but_builds(*final(self))
            },
            r is None ==> old(self).unchanged(*final(self)),
            old(self).keys_are_unique() ==> final(self).keys_are_unique(),
    {
        if position(&self.builds, id).is_some() || position(&self.versions, app_version_id).is_none() {
            return None;
        }
        let row = ApplicationBuild {
            id,
            app_version_id,
            build_version: String::from_str(build_version),
            success_count: 0,
            failed_count: 0,
            url: String::from_str(url),
            disabled: false,
        };
        let given = row.copy();
        self.builds.push(row);
        Some(given)
    }

    /// Enters a client of the application `app_id` under the identifier `id`, enabled,
    /// made and updated at `now`; `None`, and nothing entered, where the identifier is
    /// taken or there is no such application.
    pub fn insert_client(&mut self, id: u128, app_id: u128, version: &str, now: i64) -> (r: Option<
        Client,
    >)
        ensures
            r is Some <==> !has_id(old(self).clients@, id) && has_id(
                old(self).applications@,
                app_id,
            ),
            r matches Some(c) ==> {
                &&& c.id == id
                &&& c.app_id == app_id
                &&& c.version@ == version@
                &&& c.enabled
                &&& c.created_at == now
                &&& c.updated_at == now
                &&& final(self).clients@ == old(self).clients@.push(c)
                &&& old(self).same_but_clients(*final(self))
            },
            r is None ==> old(self).unchanged(*final(self)),
            old(self).keys_are_unique() ==> final(self).keys_are_unique(),
    {
        if position(&self.clients, id).is_some() || position(&self.applications, app_id).is_none() {
            return None;
        }
        let row = Client {
            id,
            app_id,
            updated_at: now,
            version: String::from_str(version),
            enabled: true,
            created_at: now,
        };
        let given = row.copy();
        self.clients.push(row);
        Some(given)
    }

    /// Whether a success can be counted for the build `id`: there is such a build, and
    /// its counter is not at its end.
    pub open spec fn can_count_success(self, id: u128) -> bool {
        has_id(self.builds@, id) && success_count_of(self.builds@, id) < u32::MAX
    }

    /// Whether a failure can be counted for the build `id`.
    pub open spec fn can_count_failure(self, id: u128) -> bool {
        has_id(self.builds@, id) && failed_count_of(self.builds@, id) < u32::MAX
    }

    /// Counts one success for the build `id`, and says whether it did.
    pub fn increment_success_count(&mut self, id: u128) -> (done: bool)
        ensures
            done == old(self).can_count_success(id),
            done
                ==> final(self).builds@ == after_success(old(self).builds@, id)
                && old(self).same_but_builds(*final(self)),
            !done ==> old(self).unchanged(*final(self)),
            old(self).keys_are_unique() ==> final(self).keys_are_unique(),
    {
        proof {
            lemma_place_of(self.builds@, id);
        }
        match position(&self.builds, id) {
            Some(i) => {
                let b = &self.builds[i];
                if b.success_count == u32::MAX {
                    return false;
                }
                let row = ApplicationBuild {
                    id: b.id,
                    app_version_id: b.app_version_id,
                    build_version: b.build_version.clone(),
                    success_count: b.success_count + 1,
                    failed_count: b.failed_count,
                    url: b.url.clone(),
                    disabled: b.disabled,
                };
                self.builds.set(i, row);
                true
            },
            None => false,
        }
    }

    /// Counts one failure for the build `id`, and says whether it did.
    pub fn increment_failure_count(&mut self, id: u128) -> (done: bool)
        ensures
            done == old(self).can_count_failure(id),
            done
                ==> final(self).builds@ == after_failure(old(self).builds@, id)
                && old(self).same_but_builds(*final(self)),
            !done ==> old(self).unchanged(*final(self)),
            old(self).keys_are_unique() ==> final(self).keys_are_unique(),
    {
        proof {
            lemma_place_of(self.builds@, id);
        }
        match position(&self.builds, id) {
            Some(i) => {
                let b = &self.builds[i];
                if b.failed_count == u32::MAX {
                    return false;
                }
                let row = ApplicationBuild {
                    id: b.id,
                    app_version_id: b.app_version_id,
                    build_version: b.build_version.clone(),
                    success_count: b.success_count,
                    failed_count: b.failed_count + 1,
                    url: b.url.clone(),
                    disabled: b.disabled,
                };
                self.builds.set(i, row);
                true
            },
            None => false,
        }
    }

    /// Notes that the client `id` said at `now` that it runs `version`, and says whether
    /// there is such a client.
    pub fn set_client_version(&mut self, id: u128, version: &str, now: i64) -> (found: bool)
        ensures
            found == has_id(old(self).clients@, id),
            found ==> {
                &&& final(self).clients@.len() == old(self).clients@.len()
                &&& is_updated_client(
                    old(self).clients@[place_of(old(self).clients@, id)],
                    version@,
                    now,
                    final(self).clients@[place_of(old(self).clients@, id)],
                )
                &&& forall|k: int|
                    0 <= k < old(self).clients@.len() && k != place_of(old(self).clients@, id)
                        ==> final(self).clients@[k] == old(self).clients@[k]
                &&& old(self).same_but_clients(*final(self))
            },
            !found ==> old(self).unchanged(*final(self)),
            old(self).keys_are_unique() ==> final(self).keys_are_unique(),
    {
        proof {
            lemma_place_of(self.clients@, id);
        }
        match position(&self.clients, id) {
            Some(i) => {
                let c = &self.clients[i];
                let row = Client {
                    id: c.id,
                    app_id: c.app_id,
                    updated_at: now,
                    version: String::from_str(version),
                    enabled: c.enabled,
                    created_at: c.created_at,
                };
                self.clients.set(i, row);
                true
            },
            None => false,
        }
    }

    /// Takes the client `id` out, and says how many rows went: one, or none where there
    /// is no such client.
    pub fn remove_client(&mut self, id: u128) -> (gone: u64)
        ensures
            gone == if has_id(old(self).clients@, id) {
                1u64
            } else {
                0u64
            },
            has_id(old(self).clients@, id) ==> final(self).clients@ == old(self).clients@.remove(
                place_of(old(self).clients@, id),
            ) && old(self).same_but_clients(*final(self)),
            !has_id(old(self).clients@, id) ==> old(self).unchanged(*final(self)),
            old(self).keys_are_unique() ==> final(self).keys_are_unique() && !has_id(
                final(self).clients@,
                id,
            ),
    {
        proof {
            lemma_place_of(self.clients@, id);
        }
        match position(&self.clients, id) {
            Some(i) => {
                let _ = self.clients.remove(i);
                1
            },
            None => 0,
        }
    }

    /// Takes the application `id` out, and says how many rows went: one, or none where
    /// there is no such application. Its releases and clients stay as they are.
    pub fn remove_application(&mut self, id: u128) -> (gone: u64)
        ensures
            gone == if has_id(old(self).applications@, id) {
                1u64
            } else {
                0u64
            },
            has_id(old(self).applications@, id)
                ==> final(self).applications@ == old(self).applications@.remove(
                place_of(old(self).applications@, id),
            ),
            !has_id(old(self).applications@, id)
                ==> final(self).applications@ == old(self).applications@,
            final(self).versions@ == old(self).versions@,
            final(self).builds@ == old(self).builds@,
            final(self).clients@ == old(self).clients@,
            final(self).locks@ == old(self).locks@,
            final(self).transactions == old(self).transactions,
            old(self).keys_are_unique() ==> final(self).keys_are_unique() && !has_id(
                final(self).applications@,
                id,
            ),
    {
        proof {
            lemma_place_of(self.applications@, id);
        }
        match position(&self.applications, id) {
            Some(i) => {
                let _ = self.applications.remove(i);
                1
            },
            None => 0,
        }
    }
}

/// What the transaction `transaction` is told when it tries for the lock on `key`.
pub open spec fn is_granted(locks: Seq<AdvisoryLock>, key: u128, transaction: u64) -> bool {
    !is_held_by_another(locks, key, transaction)
}

/// The locks that are held once `transaction` has tried for the lock on `key`.
pub open spec fn locks_after_attempt(locks: Seq<AdvisoryLock>, key: u128, transaction: u64) -> Seq<
    AdvisoryLock,
> {
    if is_granted(locks, key, transaction) {
        locks.push(AdvisoryLock { key, holder: transaction })
    } else {
        locks
    }
}

impl Database {
    /// Begins a transaction and gives its number; `None`, and nothing begun, where the
    /// numbers have run out.
    pub fn begin(&mut self) -> (r: Option<u64>)
        ensures
            match r {
                Some(transaction) => {
                    &&& transaction == old(self).transactions
                    &&& final(self).transactions == transaction + 1
                    &&& old(self).same_tables(*final(self))
                    &&& final(self).locks@ == old(self).locks@
                },
                None => old(self).transactions == u64::MAX && old(self).unchanged(*final(self)),
            },
    {
        if self.transactions == u64::MAX {
            None
        } else {
            let transaction = self.transactions;
            self.transactions = transaction + 1;
            Some(transaction)
        }
    }

    /// Tries for the advisory lock on `key` for `transaction`, without waiting: the lock
    /// is granted unless another transaction holds it, and is then held until
    /// `transaction` ends.
    pub fn try_advisory_lock(&mut self, transaction: u64, key: u128) -> (granted: bool)
        ensures
            granted == is_granted(old(self).locks@, key, transaction),
            final(self).locks@ == locks_after_attempt(old(self).locks@, key, transaction),
            old(self).same_tables(*final(self)),
            final(self).transactions == old(self).transactions,
    {
        let mut i: usize = 0;
        while i < self.locks.len()
            invariant
                i <= self.locks@.len(),
                *self == *old(self),
                forall|k: int|
                    0 <= k < i ==> !((#[trigger] self.locks@[k]).key == key && self.locks@[k].holder
                        != transaction),
            decreases self.locks@.len() - i,
        {
            if self.locks[i].key == key && self.locks[i].holder != transaction {
                return false;
            }
            i = i + 1;
        }
        self.locks.push(AdvisoryLock { key, holder: transaction });
        true
    }

    /// Ends `transaction`: the locks it holds are free again.
    pub fn end_transaction(&mut self, transaction: u64)
        ensures
            final(self).locks@ == locks_without(old(self).locks@, transaction),
            old(self).same_tables(*final(self)),
            final(self).transactions == old(self).transactions,
    {
        let mut kept: Vec<AdvisoryLock> = Vec::new();
        let mut i: usize = 0;
        proof {
            reveal(Seq::filter);
            assert(self.locks@.take(0) =~= Seq::<AdvisoryLock>::empty());
        }
        while i < self.locks.len()
            invariant
                i <= self.locks@.len(),
                *self == *old(self),
                kept@ == locks_without(self.locks@.take(i as int), transaction),
            decreases self.locks@.len() - i,
        {
            proof {
                reveal(Seq::filter);
                assert(self.locks@.take(i + 1).drop_last() =~= self.locks@.take(i as int));
            }
            if self.locks[i].holder != transaction {
                kept.push(self.locks[i]);
            }
            i = i + 1;
        }
        proof {
            assert(self.locks@.take(i as int) =~= self.locks@);
        }
        self.locks = kept;
    }
}

/// Counting a success for a build that has room for it adds one to its successes and
/// leaves its failures, its place and every other row as they were.
pub proof fn lemma_success_counts_once(builds: Seq<ApplicationBuild>, id: u128)
    requires
        has_id(builds, id),
        success_count_of(builds, id) < u32::MAX,
    ensures
        has_id(after_success(builds, id), id),
        place_of(after_success(builds, id), id) == place_of(builds, id),
        success_count_of(after_success(builds, id), id) == success_count_of(builds, id) + 1,
        failed_count_of(after_success(builds, id), id) == failed_count_of(builds, id),
        after_success(builds, id).len() == builds.len(),
        forall|k: int|
            0 <= k < builds.len() && k != place_of(builds, id) ==> after_success(builds, id)[k]
                == builds[k],
        forall|k: int|
            0 <= k < builds.len() ==> (#[trigger] after_success(builds, id)[k]).id == builds[k].id,
{
    lemma_place_of(builds, id);
    let p = place_of(builds, id);
    let after = after_success(builds, id);
    assert(after[p].row_id() == id);
    assert(is_first_with_id(after, id, p)) by {
        assert forall|j: int| 0 <= j < p implies (#[trigger] after[j]).row_id() != id by {
            assert(builds[j].row_id() != id);
        }
    }
    lemma_place_of(after, id);
}

/// Counting a failure for a build that has room for it adds one to its failures and
/// leaves its successes, its place and every other row as they were.
pub proof fn lemma_failure_counts_once(builds: Seq<ApplicationBuild>, id: u128)
    requires
        has_id(builds, id),
        failed_count_of(builds, id) < u32::MAX,
    ensures
        has_id(after_failure(builds, id), id),
        place_of(after_failure(builds, id), id) == place_of(builds, id),
        failed_count_of(after_failure(builds, id), id) == failed_count_of(builds, id) + 1,
        success_count_of(after_failure(builds, id), id) == success_count_of(builds, id),
        after_failure(builds, id).len() == builds.len(),
        forall|k: int|
            0 <= k < builds.len() && k != place_of(builds, id) ==> after_failure(builds, id)[k]
                == builds[k],
        forall|k: int|
            0 <= k < builds.len() ==> (#[trigger] after_failure(builds, id)[k]).id == builds[k].id,
{
    lemma_place_of(builds, id);
    let p = place_of(builds, id);
    let after = after_failure(builds, id);
    assert(after[p].row_id() == id);
    assert(is_first_with_id(after, id, p)) by {
        assert forall|j: int| 0 <= j < p implies (#[trigger] after[j]).row_id() != id by {
            assert(builds[j].row_id() != id);
        }
    }
    lemma_place_of(after, id);
}

/// The table of builds once `n` successes were counted for the build `id`, one after the
/// other.
pub open spec fn after_successes(builds: Seq<ApplicationBuild>, id: u128, n: nat) -> Seq<
    ApplicationBuild,
>
    decreases n,
{
    if n == 0 {
        builds
    } else {
        after_success(after_successes(builds, id, (n - 1) as nat), id)
    }
}

/// The table of builds once `n` failures were counted for the build `id`, one after the
/// other.
pub open spec fn after_failures(builds: Seq<ApplicationBuild>, id: u128, n: nat) -> Seq<
    ApplicationBuild,
>
    decreases n,
{
    if n == 0 {
        builds
    } else {
        after_failure(after_failures(builds, id, (n - 1) as nat), id)
    }
}

/// No report is lost: `n` successes counted for a build, in whatever order the reports
/// of its clients were taken up, leave its counter exactly `n` higher, as long as the
/// counter has room for them. Its failures stand as they were.
pub proof fn lemma_successes_add_up(builds: Seq<ApplicationBuild>, id: u128, n: nat)
    requires
        has_id(builds, id),
        success_count_of(builds, id) + n <= u32::MAX,
    ensures
        has_id(after_successes(builds, id, n), id),
        success_count_of(after_successes(builds, id, n), id) == success_count_of(builds, id) + n,
        failed_count_of(after_successes(builds, id, n), id) == failed_count_of(builds, id),
    decreases n,
{
    if n > 0 {
        lemma_successes_add_up(builds, id, (n - 1) as nat);
        lemma_success_counts_once(after_successes(builds, id, (n - 1) as nat), id);
    }
}

/// No report is lost: `n` failures counted for a build leave its counter exactly `n`
/// higher, as long as the counter has room for them. Its successes stand as they were.
pub proof fn lemma_failures_add_up(builds: Seq<ApplicationBuild>, id: u128, n: nat)
    requires
        has_id(builds, id),
        failed_count_of(builds, id) + n <= u32::MAX,
    ensures
        has_id(after_failures(builds, id, n), id),
        failed_count_of(after_failures(builds, id, n), id) == failed_count_of(builds, id) + n,
        success_count_of(after_failures(builds, id, n), id) == success_count_of(builds, id),
    decreases n,
{
    if n > 0 {
        lemma_failures_add_up(builds, id, (n - 1) as nat);
        lemma_failure_counts_once(after_failures(builds, id, (n - 1) as nat), id);
    }
}

/// A counter never goes down: whatever is counted for whichever build, the successes
/// and failures of a build are afterwards what they were or more.
pub proof fn lemma_counters_never_fall(builds: Seq<ApplicationBuild>, counted: u128, id: u128)
    requires
        has_id(builds, counted),
        has_id(builds, id),
        success_count_of(builds, counted) < u32::MAX,
        failed_count_of(builds, counted) < u32::MAX,
    ensures
        success_count_of(after_success(builds, counted), id) >= success_count_of(builds, id),
        failed_count_of(after_success(builds, counted), id) >= failed_count_of(builds, id),
        success_count_of(after_failure(builds, counted), id) >= success_count_of(builds, id),
        failed_count_of(after_failure(builds, counted), id) >= failed_count_of(builds, id),
{
    lemma_success_counts_once(builds, counted);
    lemma_failure_counts_once(builds, counted);
    lemma_place_of(builds, id);
    let p = place_of(builds, id);
    let s = after_success(builds, counted);
    let f = after_failure(builds, counted);
    assert(is_first_with_id(s, id, p)) by {
        assert(s[p].id == builds[p].id);
        assert forall|j: int| 0 <= j < p implies (#[trigger] s[j]).row_id() != id by {
            assert(s[j].id == builds[j].id);
            assert(builds[j].row_id() != id);
        }
    }
    assert(is_first_with_id(f, id, p)) by {
        assert(f[p].id == builds[p].id);
        assert forall|j: int| 0 <= j < p implies (#[trigger] f[j]).row_id() != id by {
            assert(f[j].id == builds[j].id);
            assert(builds[j].row_id() != id);
        }
    }
    lemma_place_of(s, id);
    lemma_place_of(f, id);
}

/// Of two transactions that try for a lock that is free for both, the one that comes
/// first gets it and the other does not, whichever of them comes first; the attempt that
/// was refused leaves the locks as they were; and once the holder has ended, the lock is
/// free again for every transaction for which it was free before.
pub proof fn lemma_one_holder_at_a_time(
    locks: Seq<AdvisoryLock>,
    key: u128,
    first: u64,
    second: u64,
    later: u64,
)
    requires
        first != second,
        is_granted(locks, key, first),
        is_granted(locks, key, second),
        is_granted(locks, key, later),
    ensures
        !is_granted(locks_after_attempt(locks, key, first), key, second),
        locks_after_attempt(locks_after_attempt(locks, key, first), key, second)
            == locks_after_attempt(locks, key, first),
        is_granted(locks_without(locks_after_attempt(locks, key, first), first), key, later),
{
    let held = locks_after_attempt(locks, key, first);
    assert(held[locks.len() as int] == AdvisoryLock { key, holder: first });
    let freed = locks_without(held, first);
    let others = |l: AdvisoryLock| l.holder != first;
    if is_held_by_another(freed, key, later) {
        let i = choose|i: int|
            0 <= i < freed.len() && (#[trigger] freed[i]).key == key && freed[i].holder != later;
        held.lemma_filter_pred(others, i);
        assert(freed.contains(freed[i]));
        held.lemma_filter_contains_rev(others, freed[i]);
        let j = choose|j: int| 0 <= j < held.len() && held[j] == freed[i];
        assert(j < locks.len());
        assert(locks[j] == freed[i]);
        assert(false);
    }
}

/// A transaction is never refused a lock for what it holds itself, and to end a
/// transaction frees no lock of another.
pub proof fn lemma_locks_are_per_transaction(
    locks: Seq<AdvisoryLock>,
    key: u128,
    holder: u64,
    ended: u64,
)
    requires
        is_granted(locks, key, holder),
        ended != holder,
    ensures
        is_granted(locks_after_attempt(locks, key, holder), key, holder),
        !is_granted(locks_without(locks_after_attempt(locks, key, holder), ended), key, ended),
{
    let held = locks_after_attempt(locks, key, holder);
    let n = locks.len() as int;
    assert(held[n] == AdvisoryLock { key, holder });
    assert forall|i: int| 0 <= i < held.len() && (#[trigger] held[i]).key == key implies held[i].holder
        == holder by {
        if i < n {
            assert(held[i] == locks[i]);
        }
    }
    let others = |l: AdvisoryLock| l.holder != ended;
    held.lemma_filter_contains(others, n);
    let freed = locks_without(held, ended);
    assert(freed.contains(held[n]));
    let k = choose|k: int| 0 <= k < freed.len() && freed[k] == held[n];
    assert(freed[k].key == key && freed[k].holder != ended);
}

/// Unless nothing is offered there is a first offer, and it is the only place that is
/// the first.
pub proof fn lemma_first_offer(
    db: Database,
    app_id: u128,
    version: Option<Seq<char>>,
    architecture: Seq<char>,
)
    ensures
        !db.offers_nothing(app_id, version, architecture) ==> db.is_first_offer(
            db.first_offer(app_id, version, architecture),
            app_id,
            version,
            architecture,
        ),
        forall|i: int|
            db.is_first_offer(i, app_id, version, architecture) ==> i == db.first_offer(
                app_id,
                version,
                architecture,
            ) && !db.offers_nothing(app_id, version, architecture),
{
    if !db.offers_nothing(app_id, version, architecture) {
        let k = choose|k: int|
            0 <= k < db.builds@.len() && db.offers(
                #[trigger] db.builds@[k],
                app_id,
                version,
                architecture,
            );
        lemma_offer_has_a_first(db, app_id, version, architecture, k);
    }
    assert forall|i: int| db.is_first_offer(i, app_id, version, architecture) implies i
        == db.first_offer(app_id, version, architecture) && !db.offers_nothing(
        app_id,
        version,
        architecture,
    ) by {
        let f = db.first_offer(app_id, version, architecture);
        assert(db.offers(db.builds@[i], app_id, version, architecture));
        assert(db.is_first_offer(f, app_id, version, architecture));
        if i < f {
            assert(!db.offers(db.builds@[i], app_id, version, architecture));
        } else if f < i {
            assert(!db.offers(db.builds@[f], app_id, version, architecture));
        }
    }
}

/// Below any build that is offered there is a first one.
proof fn lemma_offer_has_a_first(
    db: Database,
    app_id: u128,
    version: Option<Seq<char>>,
    architecture: Seq<char>,
    k: int,
)
    requires
        0 <= k < db.builds@.len(),
        db.offers(db.builds@[k], app_id, version, architecture),
    ensures
        exists|i: int| db.is_first_offer(i, app_id, version, architecture),
    decreases k,
{
    if exists|j: int|
        0 <= j < k && db.offers(#[trigger] db.builds@[j], app_id, version, architecture) {
        let j = choose|j: int|
            0 <= j < k && db.offers(#[trigger] db.builds@[j], app_id, version, architecture);
        lemma_offer_has_a_first(db, app_id, version, architecture, j);
    } else {
        assert(db.is_first_offer(k, app_id, version, architecture));
    }
}

} // verus!
