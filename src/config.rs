use vstd::prelude::*;
use vstd::string::StringExecFns;

verus! {

/// Environment variable naming the document service's base URL.
pub const ENDPOINT_VAR: &'static str = "APPWRITE_ENDPOINT";

/// Environment variable naming the project the service is addressed as.
pub const PROJECT_ID_VAR: &'static str = "APPWRITE_PROJECT_ID";

/// Environment variable holding the service's API key.
pub const API_KEY_VAR: &'static str = "APPWRITE_API_KEY";

/// Environment variable naming the database that holds the expenses.
pub const DATABASE_ID_VAR: &'static str = "APPWRITE_DATABASE_ID";

/// Optional environment variable naming the expense collection.
pub const COLLECTION_ID_VAR: &'static str = "APPWRITE_COLLECTION_ID_EXPENSES";

/// A configuration value that could not be found at startup.
pub enum ConfigError {
    /// The named variable was not set.
    Missing(String),
}

impl ConfigError {
    /// The name of the variable at fault.
    pub open spec fn missing_var(self) -> Seq<char> {
        match self {
            ConfigError::Missing(name) => name@,
        }
    }
}

/// Connection settings for the document service. Loaded once, never changed.
pub struct AppwriteService {
    pub endpoint: String,
    pub project_id: String,
    pub api_key: String,
    pub database_id: String,
}

fn missing(name: &str) -> (r: ConfigError)
    ensures
        r.missing_var() == name@,
{
    ConfigError::Missing(String::from_str(name))
}

impl AppwriteService {
    /// Builds the settings from the looked-up values of the four required
    /// variables. The first one that is absent, in the order of the parameters,
    /// is reported, and no settings are made.
    pub fn new(
        endpoint: Option<String>,
        project_id: Option<String>,
        api_key: Option<String>,
        database_id: Option<String>,
    ) -> (r: Result<AppwriteService, ConfigError>)
        ensures
            r is Ok <==> (endpoint is Some && project_id is Some && api_key is Some
                && database_id is Some),
            r matches Ok(s) ==> s.endpoint == endpoint->0 && s.project_id == project_id->0
                && s.api_key == api_key->0 && s.database_id == database_id->0,
            endpoint is None ==> (r matches Err(e) && e.missing_var() == ENDPOINT_VAR@),
            endpoint is Some && project_id is None ==> (r matches Err(e)
                && e.missing_var() == PROJECT_ID_VAR@),
            endpoint is Some && project_id is Some && api_key is None ==> (r matches Err(e)
                && e.missing_var() == API_KEY_VAR@),
            endpoint is Some && project_id is Some && api_key is Some && database_id is None
                ==> (r matches Err(e) && e.missing_var() == DATABASE_ID_VAR@),
    {
        let endpoint = match endpoint {
            Some(v) => v,
            None => return Err(missing(ENDPOINT_VAR)),
        };
        let project_id = match project_id {
            Some(v) => v,
            None => return Err(missing(PROJECT_ID_VAR)),
        };
        let api_key = match api_key {
            Some(v) => v,
            None => return Err(missing(API_KEY_VAR)),
        };
        let database_id = match database_id {
            Some(v) => v,
            None => return Err(missing(DATABASE_ID_VAR)),
        };
        Ok(AppwriteService { endpoint, project_id, api_key, database_id })
    }
}

/// The collection that holds the expenses: the configured one, else `expenses`.
pub fn expenses_collection_id(configured: Option<String>) -> (r: String)
    ensures
        configured matches Some(c) ==> r == c,
        configured is None ==> r@ == "expenses"@,
{
    match configured {
        Some(c) => c,
        None => String::from_str("expenses"),
    }
}

} // verus!
