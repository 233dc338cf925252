//! What a CGI web server knows of itself: where its documents and scripts are, its name and
//! address, and the text it identifies itself with.
use crate::compiler::text::{find_first, lemma_find_first, lemma_find_first_at};
use crate::strings::{push_char, strip_prefix};
use vstd::prelude::*;

verus! {

/// The file path `path` taken relative to `base`: an absolute `path` replaces `base`, and
/// otherwise the two are joined with a `/` unless `base` is empty or already ends with one.
pub open spec fn joined(base: Seq<char>, path: Seq<char>) -> Seq<char> {
    if path.len() > 0 && path[0] == '/' {
        path
    } else if base.len() == 0 {
        path
    } else if base.last() == '/' {
        base + path
    } else {
        base + seq!['/'] + path
    }
}

/// Joins two file paths as [`joined`] states it.
pub fn join_path(base: &str, path: &str) -> (r: String)
    ensures
        r@ == joined(base@, path@),
{
    let n = base.unicode_len();
    let m = path.unicode_len();
    if m > 0 && path.get_char(0) == '/' {
        return path.to_owned();
    }
    let mut r = base.to_owned();
    if n > 0 && base.get_char(n - 1) != '/' {
        push_char(&mut r, '/');
    }
    r.append(path);
    r
}

/// `path` without one leading `/`.
pub open spec fn without_leading_slash(path: Seq<char>) -> Seq<char> {
    if path.len() > 0 && path[0] == '/' {
        path.skip(1)
    } else {
        path
    }
}

fn strip_leading_slash(path: &str) -> (r: &str)
    ensures
        r@ == without_leading_slash(path@),
{
    match strip_prefix(path, "/") {
        Some(rest) => {
            proof {
                reveal_strlit("/");
                assert(path@.subrange(0, 1)[0] == path@[0]);
            }
            rest
        },
        None => {
            proof {
                reveal_strlit("/");
                if path@.len() > 0 && path@[0] == '/' {
                    assert("/"@.is_prefix_of(path@)) by {
                        assert(path@.subrange(0, 1) =~= "/"@);
                    }
                }
            }
            path
        },
    }
}

/// The script that a request path under `/cgi-bin/` names, inside the directory of CGI
/// scripts, and the rest of the path after the script's file name.
pub open spec fn script_of(cgi_bin: Seq<char>, path: Seq<char>) -> Option<(Seq<char>, Seq<char>)> {
    if "/cgi-bin/"@.is_prefix_of(path) {
        let script_path = path.skip("/cgi-bin/"@.len() as int);
        let index = match find_first(script_path, '/') {
            Some(k) => k,
            None => script_path.len() as int,
        };
        Some((joined(cgi_bin, script_path.take(index)), script_path.skip(index)))
    } else {
        None
    }
}

/// The scripts a server runs: as processes, or as WebAssembly modules.
pub struct ScriptMapping<P, W> {
    process: P,
    wasm: W,
}

impl<P, W> ScriptMapping<P, W> {
    /// The runner of scripts as processes.
    pub closed spec fn spec_process(&self) -> P {
        self.process
    }

    /// The runner of scripts as WebAssembly modules.
    pub closed spec fn spec_wasm(&self) -> W {
        self.wasm
    }

    pub fn new(process: P, wasm: W) -> (r: Self)
        ensures
            r.spec_process() == process,
            r.spec_wasm() == wasm,
    {
        Self { process, wasm }
    }

    pub fn process(&self) -> (r: &P)
        ensures
            *r == self.spec_process(),
    {
        &self.process
    }

    pub fn wasm(&self) -> (r: &W)
        ensures
            *r == self.spec_wasm(),
    {
        &self.wasm
    }
}

/// The settings of a server, as text.
pub struct ServerView {
    pub document_root: Seq<char>,
    pub cgi_bin: Seq<char>,
    pub hostname: Seq<char>,
    pub ip_address: Seq<char>,
    pub port: Seq<char>,
    pub path: Seq<char>,
    pub scheme: Seq<char>,
    pub software: Seq<char>,
}

/// What a CGI web server knows of itself.
pub struct ServerContext<P, W> {
    document_root: String,
    cgi_bin: String,
    hostname: String,
    ip_address: String,
    port: String,
    path: String,
    scheme: String,
    software: String,
    cgi_scripts: ScriptMapping<P, W>,
}

impl<P, W> View for ServerContext<P, W> {
    type V = ServerView;

    closed spec fn view(&self) -> ServerView {
        ServerView {
            document_root: self.document_root@,
            cgi_bin: self.cgi_bin@,
            hostname: self.hostname@,
            ip_address: self.ip_address@,
            port: self.port@,
            path: self.path@,
            scheme: self.scheme@,
            software: self.software@,
        }
    }
}

impl<P, W> ServerContext<P, W> {
    /// The runners of scripts of this server.
    pub closed spec fn spec_script_mappings(&self) -> ScriptMapping<P, W> {
        self.cgi_scripts
    }

    /// A server listening at the given IP address and port, serving the documents under
    /// `document_root` and the scripts under `cgi_bin` by the name `hostname`. Its scripts
    /// search `path` for programs, and it identifies itself as `program/version`.
    pub fn new(
        ip_address: String,
        port: String,
        path: String,
        program: &str,
        version: &str,
        document_root: String,
        cgi_bin: String,
        hostname: String,
        cgi_scripts: ScriptMapping<P, W>,
    ) -> (r: Self)
        ensures
            r@.ip_address == ip_address@,
            r@.port == port@,
            r@.path == path@,
            r@.scheme == "http"@,
            r@.software == program@ + seq!['/'] + version@,
            r@.document_root == document_root@,
            r@.cgi_bin == cgi_bin@,
            r@.hostname == hostname@,
            r.spec_script_mappings() == cgi_scripts,
    {
        let mut software = program.to_owned();
        push_char(&mut software, '/');
        software.append(version);
        Self {
            document_root,
            cgi_bin,
            hostname,
            ip_address,
            port,
            path,
            scheme: String::from_str("http"),
            software,
            cgi_scripts,
        }
    }

    /// The search path for the programs of scripts.
    pub fn path(&self) -> (r: &str)
        ensures
            r@ == self@.path,
    {
        self.path.as_str()
    }

    pub fn scheme(&self) -> (r: &str)
        ensures
            r@ == self@.scheme,
    {
        self.scheme.as_str()
    }

    pub fn software(&self) -> (r: &str)
        ensures
            r@ == self@.software,
    {
        self.software.as_str()
    }

    pub fn server_name(&self) -> (r: &str)
        ensures
            r@ == self@.hostname,
    {
        self.hostname.as_str()
    }

    /// The file of the script that a request path under `/cgi-bin/` names, and the rest of the
    /// path after the script's file name; `None` for a path elsewhere.
    pub fn script_filename<'a>(&self, path: &'a str) -> (r: Option<(String, &'a str)>)
        ensures
            match script_of(self@.cgi_bin, path@) {
                Some((file, extra)) => r matches Some((f, e)) && f@ == file && e@ == extra,
                None => r is None,
            },
    {
        let script_path = match strip_prefix(path, "/cgi-bin/") {
            Some(rest) => rest,
            None => {
                return None;
            },
        };
        let n = script_path.unicode_len();
        let mut index: usize = 0;
        while index < n && script_path.get_char(index) != '/'
            invariant
                n == script_path@.len(),
                index <= n,
                forall|j: int| 0 <= j < index ==> script_path@[j] != '/',
            decreases n - index,
        {
            index = index + 1;
        }
        proof {
            lemma_find_first_at(script_path@, '/', index as int);
        }
        let filename = script_path.substring_char(0, index);
        let extra_path = script_path.substring_char(index, n);
        assert(filename@ =~= script_path@.take(index as int));
        assert(extra_path@ =~= script_path@.skip(index as int));
        Some((join_path(self.cgi_bin.as_str(), filename), extra_path))
    }

    /// The file of the document that a request path names; the empty path names
    /// `index.html`.
    pub fn resolve_path(&self, path: &str) -> (r: String)
        ensures
            r@ == joined(
                self@.document_root,
                if without_leading_slash(path@).len() == 0 {
                    "index.html"@
                } else {
                    without_leading_slash(path@)
                },
            ),
    {
        let normalized = strip_leading_slash(path);
        if normalized.unicode_len() == 0 {
            join_path(self.document_root.as_str(), "index.html")
        } else {
            join_path(self.document_root.as_str(), normalized)
        }
    }

    /// The file that a path relative to the document root names.
    pub fn translate_path(&self, path: &str) -> (r: String)
        ensures
            r@ == joined(self@.document_root, without_leading_slash(path@)),
    {
        join_path(self.document_root.as_str(), strip_leading_slash(path))
    }

    /// The directory that scripts run in: the document root.
    pub fn working_directory(&self) -> (r: &str)
        ensures
            r@ == self@.document_root,
    {
        self.document_root.as_str()
    }

    pub fn ip_address(&self) -> (r: &str)
        ensures
            r@ == self@.ip_address,
    {
        self.ip_address.as_str()
    }

    pub fn port(&self) -> (r: &str)
        ensures
            r@ == self@.port,
    {
        self.port.as_str()
    }

    pub fn script_mappings(&self) -> (r: &ScriptMapping<P, W>)
        ensures
            *r == self.spec_script_mappings(),
    {
        &self.cgi_scripts
    }
}

} // verus!
