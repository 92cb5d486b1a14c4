use vstd::prelude::*;

verus! {

/// What the process is configured with.
#[derive(Debug)]
pub struct Cfg {
    pub db_user: String,
    pub db_password: String,
    pub db_port: String,
    pub db_name: String,
    pub jwt_secret: String,
}

/// The address of a database server for a user, a password and a port.
pub open spec fn server_url(user: Seq<char>, password: Seq<char>, port: Seq<char>) -> Seq<char> {
    "postgresql://"@ + user + ":"@ + password + "@localhost:"@ + port
}

impl Cfg {
    /// The address of the database: that of the server, a slash and the
    /// database's name.
    pub fn db_url(&self) -> (r: String)
        ensures
            r@ == server_url(self.db_user@, self.db_password@, self.db_port@) + "/"@
                + self.db_name@,
    {
        let mut url = self.without_db_name();
        url.append("/");
        url.append(self.db_name.as_str());
        url
    }

    /// The address of the database server, without a database's name.
    pub fn without_db_name(&self) -> (r: String)
        ensures
            r@ == server_url(self.db_user@, self.db_password@, self.db_port@),
    {
        let mut url = "postgresql://".to_owned();
        url.append(self.db_user.as_str());
        url.append(":");
        url.append(self.db_password.as_str());
        url.append("@localhost:");
        url.append(self.db_port.as_str());
        url
    }
}

} // verus!
