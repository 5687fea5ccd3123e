use vstd::prelude::*;

verus! {

/// Collects the diagnostic lines the pipeline produces, info and error
/// separately, in the order they were reported. Rendering them (severity
/// colours, the output stream) is the surrounding program's business.
pub struct Logger {
    pub infos: Vec<String>,
    pub errors: Vec<String>,
}

impl Logger {
    /// A logger that has recorded nothing yet.
    pub fn new() -> (r: Logger)
        ensures
            r.infos@ == Seq::<String>::empty(),
            r.errors@ == Seq::<String>::empty(),
    {
        Logger { infos: Vec::new(), errors: Vec::new() }
    }

    /// Records one informational message; nothing else changes.
    pub fn info(&mut self, message: String)
        ensures
            final(self).infos@ == old(self).infos@.push(message),
            final(self).errors@ == old(self).errors@,
    {
        self.infos.push(message);
    }

    /// Records one error message; nothing else changes.
    pub fn error(&mut self, message: String)
        ensures
            final(self).errors@ == old(self).errors@.push(message),
            final(self).infos@ == old(self).infos@,
    {
        self.errors.push(message);
    }
}

} // verus!
