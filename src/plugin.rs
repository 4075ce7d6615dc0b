use std::rc::Rc;

use libloading::Error as LoadError;
use libloading::Library;
use vstd::prelude::*;

use crate::error::{Error, ErrorKind};

verus! {

/// A dynamic library mapped into the process, kept opaque.
#[verifier::external_type_specification]
#[verifier::external_body]
pub struct ExLibrary(Library);

/// The reason a dynamic library could not be opened, kept opaque.
#[verifier::external_type_specification]
#[verifier::external_body]
pub struct ExLoadError(LoadError);

/// Relies on `libloading::Library::new`: maps the dynamic library at `path`,
/// or says why it could not; which of the two depends on the filesystem.
#[verifier::external_body]
fn open_library(path: &str) -> Result<Library, LoadError> {
    Library::new(path)
}

/// Relies on `libloading::Error`'s `to_string`: the reason as text.
#[verifier::external_body]
fn load_error_text(e: &LoadError) -> String {
    e.to_string()
}

/// A library that could not be loaded as a plugin: the error for the caller,
/// and the reason, for the log.
pub struct PluginLoadFailure {
    pub error: Error,
    pub reason: String,
}

/// What opening a plugin's library came to: the library, or a load error
/// with the reason the library could not be opened.
pub fn opened_plugin(opened: Result<Library, LoadError>) -> (r: Result<Library, PluginLoadFailure>)
    ensures
        opened is Ok <==> r is Ok,
        opened matches Ok(lib) ==> r == Ok::<Library, PluginLoadFailure>(lib),
        r matches Err(f) ==> f.error.kind == ErrorKind::PluginLoadError && f.error.source is None,
{
    match opened {
        Ok(lib) => Ok(lib),
        Err(e) => Err(
            PluginLoadFailure {
                error: Error::new(ErrorKind::PluginLoadError),
                reason: load_error_text(&e),
            },
        ),
    }
}

/// The process-side session: the plugin libraries it keeps mapped, in the
/// order they were loaded.
pub struct Context {
    libraries: Vec<Rc<Library>>,
}

impl Context {
    /// How many libraries the context keeps mapped.
    pub closed spec fn loaded(&self) -> nat {
        self.libraries@.len()
    }

    /// A context with no libraries.
    pub fn new() -> (r: Context)
        ensures
            r.loaded() == 0,
    {
        Context { libraries: Vec::new() }
    }

    pub fn library_count(&self) -> (r: usize)
        ensures
            r == self.loaded(),
    {
        self.libraries.len()
    }

    /// Opens the dynamic library at `path`. The context is not changed: the
    /// library is kept only once `admit_plugin` accepts it.
    pub fn open_plugin(&self, path: &str) -> (r: Result<Library, PluginLoadFailure>)
        ensures
            r matches Err(f) ==> f.error.kind == ErrorKind::PluginLoadError && f.error.source is None,
    {
        opened_plugin(open_library(path))
    }

    /// Keeps an opened library for the rest of the context's life when it
    /// exports the plugin's name symbol (`named`); a library without it is no
    /// plugin, and is released at once.
    pub fn admit_plugin(&mut self, lib: Library, named: bool) -> (r: Result<(), Error>)
        ensures
            r is Ok <==> named,
            named ==> final(self).loaded() == old(self).loaded() + 1,
            !named ==> final(self).loaded() == old(self).loaded(),
            r matches Err(e) ==> e.kind == ErrorKind::PluginLoadError && e.source is None,
    {
        if named {
            self.libraries.push(Rc::new(lib));
            Ok(())
        } else {
            Err(Error::new(ErrorKind::PluginLoadError))
        }
    }

    /// Releases every library the context holds; returns how many there were.
    pub fn unload_all(&mut self) -> (r: usize)
        ensures
            r == old(self).loaded(),
            final(self).loaded() == 0,
    {
        let n = self.libraries.len();
        self.libraries = Vec::new();
        n
    }

    /// Ends the context, releasing every library it holds; returns how many
    /// there were.
    pub fn destroy(self) -> (r: usize)
        ensures
            r == self.loaded(),
    {
        let mut ctx = self;
        ctx.unload_all()
    }
}

} // verus!
