//! How an embedded shell is set up, and variables set from outside it.

use vstd::prelude::*;
use vstd::utf8::{encode_utf8, valid_utf8};
use crate::text::{
    lossy_text, readable, readable_forms_stand_for_their_bytes, to_readable, REPLACEMENT,
};

verus! {

/// Which builtins a shell starts with.
#[derive(Clone, Copy, Debug, PartialEq, Eq, Structural)]
pub enum BuiltinSet {
    /// Those of `bash`; without them there is no `echo`, `cd`, `export` or `printf`.
    BashMode,
}

/// Whether a start-up file is read.
#[derive(Clone, Copy, Debug, PartialEq, Eq, Structural)]
pub enum LoadBehavior {
    /// Read it from its usual place.
    LoadDefault,
    /// Leave it alone.
    Skip,
}

/// The set-up of an embedded shell.
#[derive(Debug, PartialEq, Eq)]
pub struct ShellSettings {
    /// The builtins that are registered.
    pub builtins: BuiltinSet,
    /// Whether the host's environment is kept out.
    pub do_not_inherit_env: bool,
    /// The bytes of the path of the initial working directory; the host's own if absent.
    pub working_dir: Option<Vec<u8>>,
    /// What happens to the profile.
    pub profile: LoadBehavior,
    /// What happens to the rc file.
    pub rc: LoadBehavior,
}

impl ShellSettings {
    /// Sets up an embedded bash-mode shell.
    ///
    /// * `inherit_env` - inherit the host process environment.
    /// * `load_rc` - source the host's rc file and profile.
    /// * `cwd` - initial working directory.
    pub fn new(inherit_env: bool, load_rc: bool, cwd: Option<Vec<u8>>) -> (settings: ShellSettings)
        ensures
            settings.builtins == BuiltinSet::BashMode,
            settings.do_not_inherit_env == !inherit_env,
            settings.working_dir == cwd,
            settings.profile == (if load_rc {
                LoadBehavior::LoadDefault
            } else {
                LoadBehavior::Skip
            }),
            settings.rc == settings.profile,
    {
        let (profile, rc) = if load_rc {
            (LoadBehavior::LoadDefault, LoadBehavior::LoadDefault)
        } else {
            (LoadBehavior::Skip, LoadBehavior::Skip)
        };
        ShellSettings {
            builtins: BuiltinSet::BashMode,
            do_not_inherit_env: !inherit_env,
            working_dir: cwd,
            profile,
            rc,
        }
    }
}

/// The working directory as readable text, given the bytes of its path.
pub fn cwd(path: &[u8]) -> (text: String)
    ensures
        text@ == readable(path@),
        !valid_utf8(path@) ==> text@.contains(REPLACEMENT),
{
    to_readable(path)
}

/// A value for a shell variable.
#[derive(Debug, PartialEq, Eq)]
pub struct ShellVariable {
    /// The value.
    pub value: String,
    /// Whether child processes see the variable.
    pub exported: bool,
}

impl ShellVariable {
    /// A variable that stays inside its shell.
    pub fn new(value: &str) -> (variable: ShellVariable)
        ensures
            variable.value@ == value@,
            !variable.exported,
    {
        ShellVariable { value: value.to_owned(), exported: false }
    }

    /// Lets child processes see the variable.
    pub fn export(&mut self)
        ensures
            final(self).value == old(self).value,
            final(self).exported,
    {
        self.exported = true;
    }

    /// The variable that is set for `value`, exported on request.
    pub fn setenv(value: &str, export: bool) -> (variable: ShellVariable)
        ensures
            variable.value@ == value@,
            variable.exported == export,
    {
        let mut variable = ShellVariable::new(value);
        if export {
            variable.export();
        }
        variable
    }
}

/// The working directory is shown as it is: the bytes of a text come out as that text, and valid
/// UTF-8 loses nothing.
pub proof fn working_directory_is_shown_as_it_is(path: &[u8], text: String)
    requires
        call_ensures(cwd, (path,), text),
    ensures
        forall|original: Seq<char>| path@ == #[trigger] encode_utf8(original) ==> text@ == original,
        valid_utf8(path@) ==> encode_utf8(text@) == path@,
        !valid_utf8(path@) ==> text@ == lossy_text(path@) && text@.contains('\u{FFFD}'),
{
    assert forall|original: Seq<char>| path@ == #[trigger] encode_utf8(original) implies text@
        == original by {
        readable_forms_stand_for_their_bytes(path@, original);
    }
    readable_forms_stand_for_their_bytes(path@, seq![]);
}

/// An embedded shell starts as it was asked to: the host's environment is there exactly on
/// request, the two start-up files are read both or neither, exactly on request, and the working
/// directory is the one given.
pub proof fn settings_are_as_asked_for(
    inherit_env: bool,
    load_rc: bool,
    cwd: Option<Vec<u8>>,
    settings: ShellSettings,
)
    requires
        call_ensures(ShellSettings::new, (inherit_env, load_rc, cwd), settings),
    ensures
        settings.builtins is BashMode,
        settings.do_not_inherit_env <==> !inherit_env,
        settings.profile is LoadDefault <==> load_rc,
        settings.rc is LoadDefault <==> load_rc,
        settings.working_dir == cwd,
{
}

/// A variable set from outside has the value given, and child processes see it exactly on request.
pub proof fn variables_are_set_as_asked_for(value: &str, export: bool, variable: ShellVariable)
    requires
        call_ensures(ShellVariable::setenv, (value, export), variable),
    ensures
        variable.value@ == value@,
        variable.exported <==> export,
{
}

} // verus!
