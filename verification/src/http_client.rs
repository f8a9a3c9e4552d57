//! The supervisor's side of the update protocol: what it says of itself, where it sends
//! it, and what it makes of the answers.

use crate::bridge::{parse_url, path_segments_of, url_path_segments, url_serialization};
use crate::config::Config;
use crate::errors::CvmError;
use crate::text::{after_last, join_text, text_after_last};
use vstd::prelude::*;
use vstd::string::*;

verus! {

/// Path of the request that asks for the latest build.
pub const LATEST_VERSION_PATH: &'static str = "/application/latest";

/// Path of the request that reports a build as started.
pub const REPORT_SUCCESS_PATH: &'static str = "/client/success";

/// Path of the request that reports a build as failed.
pub const REPORT_FAILURE_PATH: &'static str = "/client/failure";

/// Name under which a download is kept when its URL names no file.
pub const DEFAULT_DOWNLOAD_NAME: &'static str = "tmp.bin";

/// The rollout authority's answer to "what should I be running?".
#[derive(Debug)]
pub struct LatestVersionResponse {
    pub build_id: String,
    pub version: String,
    pub url: String,
    pub update_required: bool,
}

impl LatestVersionResponse {
    /// The name of the artifact: what stands behind the last `/` of its URL.
    pub fn get_file_name(&self) -> (r: String)
        ensures
            r@ == after_last(self.url@, '/'),
    {
        text_after_last(self.url.as_str(), '/')
    }
}

/// What a supervisor says of itself with every request.
#[derive(Debug)]
pub struct ClientDetails {
    pub client_id: String,
    pub app_id: String,
    pub current_running_version: String,
    pub architecture: String,
}

/// A request to the rollout authority: the details of the client, posted to `url`.
#[derive(Debug)]
pub struct Request {
    pub url: String,
    pub body: ClientDetails,
}

/// The details of a supervisor and the three addresses it sends them to.
#[derive(Debug)]
pub struct CvmHttpClient {
    pub client_details: ClientDetails,
    pub latest_version_url: String,
    pub report_success_url: String,
    pub report_failure_url: String,
}

/// The address of the request `path` at the authority `server_url`, in normal form;
/// `None` where the two do not make a URL.
pub open spec fn endpoint(server_url: Seq<char>, path: Seq<char>) -> Option<Seq<char>> {
    url_serialization(server_url + path)
}

/// Whether `server_url` makes a URL with each of the three request paths.
pub open spec fn endpoints_exist(server_url: Seq<char>) -> bool {
    &&& endpoint(server_url, LATEST_VERSION_PATH@) is Some
    &&& endpoint(server_url, REPORT_SUCCESS_PATH@) is Some
    &&& endpoint(server_url, REPORT_FAILURE_PATH@) is Some
}

/// Whether `client` is what `config` and `version` make: the identity taken over, the
/// version as the one it runs, and the three addresses under the configured authority.
pub open spec fn is_client_of(client: CvmHttpClient, config: Config, version: Seq<char>) -> bool {
    &&& client.client_details.client_id == config.client_id
    &&& client.client_details.app_id == config.app_id
    &&& client.client_details.architecture == config.architecture
    &&& client.client_details.current_running_version@ == version
    &&& endpoint(config.cvm_server_url@, LATEST_VERSION_PATH@) == Some(
        client.latest_version_url@,
    )
    &&& endpoint(config.cvm_server_url@, REPORT_SUCCESS_PATH@) == Some(
        client.report_success_url@,
    )
    &&& endpoint(config.cvm_server_url@, REPORT_FAILURE_PATH@) == Some(
        client.report_failure_url@,
    )
}

/// The name a download is kept under: the last piece of its URL's path, or the default
/// where the URL has no path pieces or the last one is empty.
pub open spec fn file_name_of(segments: Option<Seq<Seq<char>>>) -> Seq<char> {
    match segments {
        Some(s) => if s.len() > 0 && s.last().len() > 0 {
            s.last()
        } else {
            DEFAULT_DOWNLOAD_NAME@
        },
        None => DEFAULT_DOWNLOAD_NAME@,
    }
}

impl ClientDetails {
    /// The same details once more.
    pub fn copy(&self) -> (r: ClientDetails)
        ensures
            r == *self,
    {
        ClientDetails {
            client_id: self.client_id.clone(),
            app_id: self.app_id.clone(),
            current_running_version: self.current_running_version.clone(),
            architecture: self.architecture.clone(),
        }
    }
}

impl CvmHttpClient {
    /// The request that asks for the latest build: the details as they stand, with the
    /// version that counts as running, to the address for that question.
    pub open spec fn asks_latest(self) -> Request {
        Request { url: self.latest_version_url, body: self.client_details }
    }

    /// The request that reports the running build as started.
    pub open spec fn says_healthy(self) -> Request {
        Request { url: self.report_success_url, body: self.client_details }
    }

    /// The request that reports the running build as failed.
    pub open spec fn says_failed(self) -> Request {
        Request { url: self.report_failure_url, body: self.client_details }
    }

    /// The request that asks the rollout authority for the latest build.
    pub fn latest_request(&self) -> (r: Request)
        ensures
            r == self.asks_latest(),
    {
        Request { url: self.latest_version_url.clone(), body: self.client_details.copy() }
    }

    /// The request that tells the rollout authority that the build that runs has
    /// started.
    pub fn report_healthy(&self) -> (r: Request)
        ensures
            r == self.says_healthy(),
    {
        Request { url: self.report_success_url.clone(), body: self.client_details.copy() }
    }

    /// The request that tells the rollout authority that the build that was to run has
    /// failed.
    pub fn report_failure(&self) -> (r: Request)
        ensures
            r == self.says_failed(),
    {
        Request { url: self.report_failure_url.clone(), body: self.client_details.copy() }
    }

    /// The name under which the download is kept that arrived from `final_url`, the
    /// address that answered in the end.
    pub fn download_version(&self, final_url: &str) -> (file_name: String)
        ensures
            file_name@ == file_name_of(url_path_segments(final_url@)),
    {
        download_file_name(final_url)
    }

    /// Whether the authority at `server_url` makes a URL with each of the three request
    /// paths.
    pub fn endpoints_parse(server_url: &str) -> (r: bool)
        ensures
            r == endpoints_exist(server_url@),
    {
        parse_url(join_text(server_url, LATEST_VERSION_PATH).as_str()).is_some() && parse_url(
            join_text(server_url, REPORT_SUCCESS_PATH).as_str(),
        ).is_some() && parse_url(join_text(server_url, REPORT_FAILURE_PATH).as_str()).is_some()
    }

    /// The client for `config` that reports `version` as running; `None` where the
    /// configured authority makes no URL with one of the request paths.
    pub fn try_new(config: Config, version: &str) -> (r: Option<CvmHttpClient>)
        ensures
            r is Some <==> endpoints_exist(config.cvm_server_url@),
            r matches Some(client) ==> is_client_of(client, config, version@),
    {
        if CvmHttpClient::endpoints_parse(config.cvm_server_url.as_str()) {
            Some(CvmHttpClient::new(config, version))
        } else {
            None
        }
    }

    /// The client for `config` that reports `version` as running.
    pub fn new(config: Config, version: &str) -> (r: CvmHttpClient)
        requires
            endpoints_exist(config.cvm_server_url@),
        ensures
            is_client_of(r, config, version@),
    {
        let latest = parse_url(join_text(config.cvm_server_url.as_str(), LATEST_VERSION_PATH).as_str());
        let success = parse_url(
            join_text(config.cvm_server_url.as_str(), REPORT_SUCCESS_PATH).as_str(),
        );
        let failure = parse_url(
            join_text(config.cvm_server_url.as_str(), REPORT_FAILURE_PATH).as_str(),
        );
        let client_details = ClientDetails {
            client_id: config.client_id,
            app_id: config.app_id,
            current_running_version: String::from_str(version),
            architecture: config.architecture,
        };
        CvmHttpClient {
            client_details,
            latest_version_url: latest.unwrap(),
            report_success_url: success.unwrap(),
            report_failure_url: failure.unwrap(),
        }
    }

    /// Takes `version` as the one that is running.
    pub fn set_version(&mut self, version: &str)
        ensures
            final(self).client_details.current_running_version@ == version@,
            final(self).client_details.client_id == old(self).client_details.client_id,
            final(self).client_details.app_id == old(self).client_details.app_id,
            final(self).client_details.architecture == old(self).client_details.architecture,
            final(self).latest_version_url == old(self).latest_version_url,
            final(self).report_success_url == old(self).report_success_url,
            final(self).report_failure_url == old(self).report_failure_url,
    {
        self.client_details.current_running_version = String::from_str(version);
    }

    /// Takes in the authority's answer to a request for the latest build. An answer that
    /// arrived names the version that counts as running from now on; a failed request
    /// changes nothing. Either is handed on as it came.
    pub fn check_latest(&mut self, outcome: Result<LatestVersionResponse, CvmError>) -> (r: Result<
        LatestVersionResponse,
        CvmError,
    >)
        ensures
            r == outcome,
            outcome matches Ok(response) ==> final(self).client_details.current_running_version@
                == response.version@,
            outcome is Err
                ==> final(self).client_details.current_running_version
                == old(self).client_details.current_running_version,
            final(self).client_details.client_id == old(self).client_details.client_id,
            final(self).client_details.app_id == old(self).client_details.app_id,
            final(self).client_details.architecture == old(self).client_details.architecture,
            final(self).latest_version_url == old(self).latest_version_url,
            final(self).report_success_url == old(self).report_success_url,
            final(self).report_failure_url == old(self).report_failure_url,
    {
        match outcome {
            Ok(response) => {
                self.set_version(response.version.as_str());
                Ok(response)
            },
            Err(e) => Err(e),
        }
    }
}

/// The name a download is kept under, from the pieces of its URL's path.
pub fn file_name_from_segments(segments: Option<Vec<String>>) -> (r: String)
    ensures
        r@ == file_name_of(
            match segments {
                Some(v) => Some(crate::bridge::views_of(v@)),
                None => None,
            },
        ),
{
    match segments {
        Some(v) => {
            let n = v.len();
            if n > 0 && v[n - 1].as_str().unicode_len() > 0 {
                v[n - 1].clone()
            } else {
                String::from_str(DEFAULT_DOWNLOAD_NAME)
            }
        },
        None => String::from_str(DEFAULT_DOWNLOAD_NAME),
    }
}

/// The name under which the download from `url` is kept in the working directory.
pub fn download_file_name(url: &str) -> (r: String)
    ensures
        r@ == file_name_of(url_path_segments(url@)),
{
    file_name_from_segments(path_segments_of(url))
}

} // verus!
