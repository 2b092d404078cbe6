//! The SQL text the backend hands to its database driver: the connection
//! string and the schema bootstrap statement. Executing them is the driver's
//! business, outside the library; their exact text is pinned here.

use vstd::prelude::*;

verus! {

/// The connection string for the backend's database.
pub fn connection_string() -> (s: &'static str)
    ensures
        s@ == "host=127.0.0.1 user=postgres password=postGr3s1245xSDI dbname=rust_app_db port=5431"@,
{
    "host=127.0.0.1 user=postgres password=postGr3s1245xSDI dbname=rust_app_db port=5431"
}

/// The statement that creates the one table: an auto-assigned integer
/// primary key, required name and password, and a required unique email.
pub fn schema_init_sql() -> (s: &'static str)
    ensures
        s@ == "CREATE TABLE IF NOT EXISTS users (\n    id SERIAL PRIMARY KEY,\n    name TEXT NOT NULL,\n    email TEXT NOT NULL UNIQUE,\n    password TEXT NOT NULL\n)"@,
{
    "CREATE TABLE IF NOT EXISTS users (\n    id SERIAL PRIMARY KEY,\n    name TEXT NOT NULL,\n    email TEXT NOT NULL UNIQUE,\n    password TEXT NOT NULL\n)"
}

} // verus!
