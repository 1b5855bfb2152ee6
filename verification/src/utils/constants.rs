//! Names and numbers that the service fixes.

use vstd::prelude::*;

verus! {

/// Name of the cookie that carries the session token.
pub const JWT_COOKIE_NAME: &'static str = "jwt";

/// Name of the environment variable that holds the signing secret.
pub const JWT_SECRET_ENV_VAR: &'static str = "JWT_SECRET";

/// Name of the environment variable that holds the database's address.
pub const DATABASE_URL_ENV_VAR: &'static str = "DATABASE_URL";

/// Address that the service listens on in production.
pub const PROD_APP_ADDRESS: &'static str = "0.0.0.0:3000";

/// Address that the service listens on under test: any free port.
pub const TEST_APP_ADDRESS: &'static str = "127.0.0.1:0";

} // verus!
