//! The statements that a build store over a relational database sends to it.

use crate::text::join_text;
use vstd::prelude::*;
use vstd::string::*;

verus! {

pub const TABLE_CLIENTS: &'static str = "clients";

pub const TABLE_APPLICATION_VERSIONS: &'static str = "application_versions";

pub const QUERY_CLIENT: &'static str = r#"
    SELECT id, app_id, updated_at, version, enabled, created_at FROM clients WHERE id = $1
"#;

pub const UPDATE_CLIENT: &'static str = r#"
    UPDATE clients SET version = $1, updated_at=now() WHERE id = $2
"#;

pub const INSERT_CLIENT: &'static str = r#"
    INSERT INTO clients (app_id, version, build_version)
    VALUES ($1, $2, $3)
    RETURNING id, app_id, created_at, updated_at, build_version, version, enabled;
"#;

pub const DELETE_CLIENT_BY_ID: &'static str = "DELETE FROM clients WHERE id = $1;";

pub const QUERY_APPLICATION_VERSION: &'static str = r#"
    SELECT id, app_id, version, latest
    FROM application_versions
    WHERE id = $1
"#;

pub const QUERY_LATEST_BUILD_VERSION: &'static str = r#"
    select ab.id, app_version_id, build_version, success_count, failed_count, url, disabled
    from application_builds ab
    inner join application_versions av on ab.app_version_id = av.id
    where av.latest = true and ab.build_version = $1 and av.app_id = $2 and ab.disabled = false
"#;

pub const QUERY_APPLICATION_BUILD_VERSION: &'static str = r#"
    select ab.id, app_version_id, build_version, success_count, failed_count, url, disabled
    from application_builds ab
        inner join application_versions av on ab.app_version_id = av.id
    where av.app_id = $1 and av.version = $2 and ab.build_version = $3 and ab.disabled = false
"#;

pub const INSERT_APPLICATION_VERSION: &'static str = r#"
    INSERT INTO application_versions (app_id, version, latest)
    VALUES ($1, $2, $3)
    RETURNING id, app_id, version, latest;
 "#;

pub const DEMOTE_LATEST_VERSIONS: &'static str = r#"
    UPDATE application_versions
    SET latest = false
    WHERE app_id = $1 AND latest = true;
"#;

pub const UPDATE_APPLICATION_BUILD_SUCCESS: &'static str = r#"
    UPDATE application_builds
    SET success_count = success_count + 1
    WHERE id = $1;
"#;

pub const UPDATE_APPLICATION_BUILD_FAILURE: &'static str = r#"
    UPDATE application_builds
    SET failed_count = failed_count + 1
    WHERE id = $1;
"#;

pub const INSERT_APPLICATION_BUILD: &'static str = r#"
    INSERT INTO application_builds (url, build_version, app_version_id)
    VALUES ($1, $2, $3)
    RETURNING id, app_version_id, success_count, failed_count, build_version, url, disabled
"#;

pub const QUERY_APPLICATION_BY_ID: &'static str = r#"
    SELECT id, name, description, created_at
    FROM applications
    WHERE id = $1
"#;

pub const INSERT_INTO_APPLICATION: &'static str = r#"
    INSERT INTO applications (name, description)
    VALUES ($1, $2)
    RETURNING id, name, description, created_at
"#;

pub const DELETE_APPLICATION: &'static str = r#"
    DELETE FROM applications
    WHERE id = $1
"#;

pub const QUERY_ADVISORY_LOCK: &'static str = "SELECT pg_try_advisory_xact_lock($1);";

/// What is put behind a query to have the rows it finds locked until the transaction
/// ends.
pub const FOR_UPDATE: &'static str = " FOR UPDATE";

/// The query for the build of an exact version; with `for_update` the row it finds stays
/// locked until the transaction ends.
pub fn application_build_query(for_update: bool) -> (query: String)
    ensures
        query@ == if for_update {
            QUERY_APPLICATION_BUILD_VERSION@ + FOR_UPDATE@
        } else {
            QUERY_APPLICATION_BUILD_VERSION@
        },
{
    if for_update {
        join_text(QUERY_APPLICATION_BUILD_VERSION, FOR_UPDATE)
    } else {
        String::from_str(QUERY_APPLICATION_BUILD_VERSION)
    }
}

} // verus!
