use vstd::prelude::*;
use crate::model::copy_strings;

verus! {

/// A command line to run: the program, its arguments, its environment
/// entries and an optional working directory.
pub struct Command {
    pub executable: String,
    pub args: Vec<String>,
    pub env: Vec<String>,
    pub current_dir: Option<String>,
}

/// Staged construction of a [`Command`]: every field starts absent.
pub struct CommandBuilder {
    pub executable: Option<String>,
    pub args: Option<Vec<String>>,
    pub env: Option<Vec<String>>,
    pub current_dir: Option<String>,
}

/// The list that a `get_or_insert(vec![])` followed by a push leaves behind.
pub open spec fn pushed(list: Option<Vec<String>>, item: String) -> Seq<String> {
    match list {
        Some(l) => l@.push(item),
        None => seq![item],
    }
}

fn push_onto(list: &mut Option<Vec<String>>, item: String)
    ensures
        *final(list) matches Some(l) && l@ == pushed(*old(list), item),
{
    match list {
        Some(l) => {
            l.push(item);
        },
        None => {
            let mut l: Vec<String> = Vec::new();
            l.push(item);
            *list = Some(l);
        },
    }
}

impl CommandBuilder {
    /// Sets the program to run, replacing any earlier value.
    pub fn executable(&mut self, executable: String) -> (r: &mut Self)
        ensures
            *r == (CommandBuilder { executable: Some(executable), ..*old(self) }),
            *final(self) == *final(r),
    {
        self.executable = Some(executable);
        self
    }

    /// Sets the whole argument list, replacing any earlier one.
    pub fn args(&mut self, args: Vec<String>) -> (r: &mut Self)
        ensures
            *r == (CommandBuilder { args: Some(args), ..*old(self) }),
            *final(self) == *final(r),
    {
        self.args = Some(args);
        self
    }

    /// Appends one argument, starting the list if none was set.
    pub fn arg(&mut self, arg: String) -> (r: &mut Self)
        ensures
            r.args matches Some(l) && l@ == pushed(old(self).args, arg),
            r.executable == old(self).executable,
            r.env == old(self).env,
            r.current_dir == old(self).current_dir,
            *final(self) == *final(r),
    {
        push_onto(&mut self.args, arg);
        self
    }

    /// Appends one environment entry, starting the list if none was set.
    pub fn env(&mut self, env: String) -> (r: &mut Self)
        ensures
            r.env matches Some(l) && l@ == pushed(old(self).env, env),
            r.executable == old(self).executable,
            r.args == old(self).args,
            r.current_dir == old(self).current_dir,
            *final(self) == *final(r),
    {
        push_onto(&mut self.env, env);
        self
    }

    /// Sets the working directory, replacing any earlier value.
    pub fn current_dir(&mut self, current_dir: String) -> (r: &mut Self)
        ensures
            *r == (CommandBuilder { current_dir: Some(current_dir), ..*old(self) }),
            *final(self) == *final(r),
    {
        self.current_dir = Some(current_dir);
        self
    }

    /// Builds the command from what was set. The first required field that is
    /// still absent, in declaration order, is named in the error.
    pub fn build(&mut self) -> (r: Result<Command, String>)
        ensures
            *final(self) == *old(self),
            old(self).executable is None ==> r is Err && r->Err_0@ == "field `executable` is missing"@,
            old(self).executable is Some && old(self).args is None ==> r is Err
                && r->Err_0@ == "field `args` is missing"@,
            old(self).executable is Some && old(self).args is Some && old(self).env is None
                ==> r is Err && r->Err_0@ == "field `env` is missing"@,
            old(self).executable is Some && old(self).args is Some && old(self).env is Some
                ==> r is Ok
                && r->Ok_0.executable == old(self).executable->Some_0
                && r->Ok_0.args@ == old(self).args->Some_0@
                && r->Ok_0.env@ == old(self).env->Some_0@
                && r->Ok_0.current_dir == old(self).current_dir,
    {
        let executable = match &self.executable {
            Some(e) => e.clone(),
            None => {
                return Err(String::from_str("field `executable` is missing"));
            },
        };
        let args = match &self.args {
            Some(a) => copy_strings(a),
            None => {
                return Err(String::from_str("field `args` is missing"));
            },
        };
        let env = match &self.env {
            Some(e) => copy_strings(e),
            None => {
                return Err(String::from_str("field `env` is missing"));
            },
        };
        let current_dir = match &self.current_dir {
            Some(d) => Some(d.clone()),
            None => None,
        };
        Ok(Command { executable, args, env, current_dir })
    }
}

impl Command {
    /// A fresh builder with every field absent.
    pub fn builder() -> (r: CommandBuilder)
        ensures
            r.executable is None,
            r.args is None,
            r.env is None,
            r.current_dir is None,
    {
        let builder = CommandBuilder { executable: None, args: None, env: None, current_dir: None };
        builder
    }
}

} // verus!
