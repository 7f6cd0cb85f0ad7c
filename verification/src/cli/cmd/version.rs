//! The `version` sub-command: the client's own build information
//! beside what the server says of itself.

use vstd::prelude::*;

use crate::cli::BuildInfo;
use crate::codec::min_usize;
use crate::httpclient::data::VersionInfo;

verus! {

/// What a `version` invocation asks for.
#[derive(Clone, Copy, Debug, PartialEq, Eq, Structural)]
pub struct Input {
    /// Only show the client version; ask the server nothing.
    pub client_only: bool,
}

/// Failures of the `version` sub-command.
#[derive(Clone, Debug)]
pub enum Error {
    /// A request to the platform failed.
    HttpClient { message: String },
    /// The result could not be written out.
    WriteResult { message: String },
}

/// Client and server versions side by side.
#[derive(Clone, Debug)]
pub struct Versions {
    pub client: BuildInfo,
    pub server: VersionInfo,
    pub renku_url: String,
}

impl Versions {
    /// Puts the server's answer beside this client's own build.
    pub fn create(server: VersionInfo, renku_url: &str) -> (r: Versions)
        ensures
            r.server == server,
            r.renku_url@ == renku_url@,
            r.client.build_version@ == "0.1.0"@,
    {
        Versions { client: BuildInfo::default(), server, renku_url: renku_url.to_owned() }
    }

    /// The lines shown for both versions, with the first eight
    /// characters of the search service's commit.
    pub fn render(&self) -> (r: String)
        ensures
            r@ == "Client:\n"@ + self.client.render_spec() + "\n\nRenku @ "@ + self.renku_url@
                + "\n  Data Services: "@ + self.server.data.version@ + "\n  Search Services: "@
                + self.server.search.version@ + " ("@ + self.server.search.head_commit@.subrange(
                0,
                if self.server.search.head_commit@.len() < 8 {
                    self.server.search.head_commit@.len() as int
                } else {
                    8
                },
            ) + ")"@,
    {
        let n = self.server.search.head_commit.unicode_len();
        let k = min_usize(n, 8);
        let mut s = String::new();
        s.append("Client:\n");
        let client = self.client.render();
        s.append(client.as_str());
        s.append("\n\nRenku @ ");
        s.append(self.renku_url.as_str());
        s.append("\n  Data Services: ");
        s.append(self.server.data.version.as_str());
        s.append("\n  Search Services: ");
        s.append(self.server.search.version.as_str());
        s.append(" (");
        s.append(self.server.search.head_commit.substring_char(0, k));
        s.append(")");
        s
    }
}

} // verus!
