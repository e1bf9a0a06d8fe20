//! The settings of the attribute that wraps a generation function in the
//! entry point, and what the attribute decides from them.

use vstd::prelude::*;
use vstd::string::*;
use crate::text::same_text;

verus! {

/// One setting of the attribute.
#[derive(Debug, PartialEq, Eq, Clone, Copy, Structural)]
pub enum Setting {
    AssertUnwindSafe,
    AllowNotMacro,
    ProcMacroHack,
}

/// The setting that a word names, if it names one.
pub open spec fn setting_named(word: Seq<char>) -> Option<Setting> {
    if word == "assert_unwind_safe"@ {
        Some(Setting::AssertUnwindSafe)
    } else if word == "allow_not_macro"@ {
        Some(Setting::AllowNotMacro)
    } else if word == "proc_macro_hack"@ {
        Some(Setting::ProcMacroHack)
    } else {
        None
    }
}

/// What is said of a word that names no setting.
pub open spec fn unknown_setting(word: Seq<char>) -> Seq<char> {
    "unknown setting `"@ + word
        + "`, expected one of `assert_unwind_safe`, `allow_not_macro`, `proc_macro_hack`"@
}

impl Setting {
    /// The setting that `word` names, or the message that says why there is
    /// none.
    pub fn parse(word: &str) -> (parsed: Result<Setting, String>)
        ensures
            match setting_named(word@) {
                Some(setting) => parsed == Ok::<Setting, String>(setting),
                None => parsed matches Err(message) && message@ == unknown_setting(word@),
            },
    {
        if same_text(word, "assert_unwind_safe") {
            Ok(Setting::AssertUnwindSafe)
        } else if same_text(word, "allow_not_macro") {
            Ok(Setting::AllowNotMacro)
        } else if same_text(word, "proc_macro_hack") {
            Ok(Setting::ProcMacroHack)
        } else {
            let mut message = String::from_str("unknown setting `");
            message.append(word);
            message.append(
                "`, expected one of `assert_unwind_safe`, `allow_not_macro`, `proc_macro_hack`",
            );
            Err(message)
        }
    }
}

/// The settings that were given to the attribute or implied by what it
/// stands on, in the order in which they were set.
pub struct Settings {
    set: Vec<Setting>,
}

impl View for Settings {
    type V = Seq<Setting>;

    closed spec fn view(&self) -> Seq<Setting> {
        self.set@
    }
}

impl Settings {
    /// No setting.
    pub fn new() -> (settings: Self)
        ensures
            settings@ == Seq::<Setting>::empty(),
    {
        Settings { set: Vec::new() }
    }

    /// Whether `setting` was set.
    pub fn is_set(&self, setting: Setting) -> (found: bool)
        ensures
            found == self@.contains(setting),
    {
        let mut i: usize = 0;
        while i < self.set.len()
            invariant
                0 <= i <= self.set.len(),
                forall|j: int| 0 <= j < i ==> self.set@[j] != setting,
            decreases self.set.len() - i,
        {
            if self.set[i] == setting {
                return true;
            }
            i += 1;
        }
        false
    }

    /// Sets `setting`.
    pub fn set(&mut self, setting: Setting)
        ensures
            final(self)@ == old(self)@.push(setting),
    {
        self.set.push(setting)
    }
}

/// Whether an attribute of this name marks a function as a procedural macro.
pub open spec fn marks_proc_macro(name: Seq<char>) -> bool {
    name == "proc_macro"@ || name == "proc_macro_derive"@ || name == "proc_macro_attribute"@
}

/// Whether one of the names satisfies `marks_proc_macro`.
pub open spec fn any_marks_proc_macro(names: Seq<String>) -> bool {
    exists|i: int| 0 <= i < names.len() && marks_proc_macro(#[trigger] names[i]@)
}

/// Whether one of the names is `proc_macro_hack`.
pub open spec fn any_is_hack(names: Seq<String>) -> bool {
    exists|i: int| 0 <= i < names.len() && #[trigger] names[i]@ == "proc_macro_hack"@
}

/// Whether one of the attributes, given by their names, marks the function
/// as a procedural macro.
pub fn is_proc_macro(attrs: &Vec<String>) -> (found: bool)
    ensures
        found == any_marks_proc_macro(attrs@),
{
    let mut i: usize = 0;
    while i < attrs.len()
        invariant
            0 <= i <= attrs.len(),
            forall|j: int| 0 <= j < i ==> !marks_proc_macro(#[trigger] attrs@[j]@),
        decreases attrs.len() - i,
    {
        let name = attrs[i].as_str();
        if same_text(name, "proc_macro") || same_text(name, "proc_macro_derive") || same_text(
            name,
            "proc_macro_attribute",
        ) {
            return true;
        }
        i += 1;
    }
    false
}

/// Whether one of the attributes, given by their names, is `proc_macro_hack`.
pub fn detect_proc_macro_hack(attrs: &Vec<String>) -> (found: bool)
    ensures
        found == any_is_hack(attrs@),
{
    let mut i: usize = 0;
    while i < attrs.len()
        invariant
            0 <= i <= attrs.len(),
            forall|j: int| 0 <= j < i ==> #[trigger] attrs@[j]@ != "proc_macro_hack"@,
        decreases attrs.len() - i,
    {
        if same_text(attrs[i].as_str(), "proc_macro_hack") {
            return true;
        }
        i += 1;
    }
    false
}

/// How the attribute wraps the body of the function it stands on.
#[derive(Debug, PartialEq, Eq, Clone, Copy, Structural)]
pub struct Wrapping {
    /// Whether the body is asserted to be unwind safe.
    pub assert_unwind_safe: bool,
    /// Whether the entry point is told that the macro goes through
    /// `proc_macro_hack`.
    pub proc_macro_hack: bool,
}

/// What the attribute decides for given settings and attribute names: it
/// refuses a function that is no procedural macro unless that was allowed;
/// a procedural macro is asserted to be unwind safe, as is a function for
/// which this was set; the hack is on where it was set or detected.
pub open spec fn wrapping(given: Seq<Setting>, attrs: Seq<String>) -> Option<Wrapping> {
    if given.contains(Setting::AllowNotMacro) || any_marks_proc_macro(attrs) {
        Some(
            Wrapping {
                assert_unwind_safe: any_marks_proc_macro(attrs) || given.contains(
                    Setting::AssertUnwindSafe,
                ),
                proc_macro_hack: any_is_hack(attrs) || given.contains(Setting::ProcMacroHack),
            },
        )
    } else {
        None
    }
}

/// Decides how the attribute wraps the function whose attributes have the
/// names `attrs`, and records in `settings` what these attributes imply.
/// There is no wrapping where the function is refused.
pub fn plan(settings: &mut Settings, attrs: &Vec<String>) -> (plan: Option<Wrapping>)
    ensures
        plan == wrapping(old(settings)@, attrs@),
        final(settings)@ == old(settings)@ + (if any_marks_proc_macro(attrs@) {
            seq![Setting::AssertUnwindSafe]
        } else {
            Seq::<Setting>::empty()
        }) + (if any_is_hack(attrs@) {
            seq![Setting::ProcMacroHack]
        } else {
            Seq::<Setting>::empty()
        }),
{
    let is_macro = is_proc_macro(attrs);
    if is_macro {
        settings.set(Setting::AssertUnwindSafe);
    }
    if detect_proc_macro_hack(attrs) {
        settings.set(Setting::ProcMacroHack);
    }
    assert(settings@ =~= old(settings)@ + (if any_marks_proc_macro(attrs@) {
        seq![Setting::AssertUnwindSafe]
    } else {
        Seq::<Setting>::empty()
    }) + (if any_is_hack(attrs@) {
        seq![Setting::ProcMacroHack]
    } else {
        Seq::<Setting>::empty()
    }));
    let allowed = settings.is_set(Setting::AllowNotMacro);
    let unwind = settings.is_set(Setting::AssertUnwindSafe);
    let hack = settings.is_set(Setting::ProcMacroHack);
    proof {
        let before = old(settings)@;
        let after = settings@;
        assert forall|s: Setting| after.contains(s) <==> (before.contains(s) || (s
            == Setting::AssertUnwindSafe && any_marks_proc_macro(attrs@)) || (s
            == Setting::ProcMacroHack && any_is_hack(attrs@))) by {
            if before.contains(s) {
                let i = choose|i: int| 0 <= i < before.len() && before[i] == s;
                assert(after[i] == s);
            }
            if s == Setting::AssertUnwindSafe && any_marks_proc_macro(attrs@) {
                assert(after[before.len() as int] == s);
            }
            if s == Setting::ProcMacroHack && any_is_hack(attrs@) {
                assert(after[after.len() - 1] == s);
            }
        }
    }
    if !(allowed || is_macro) {
        return None;
    }
    Some(Wrapping { assert_unwind_safe: unwind, proc_macro_hack: hack })
}

} // verus!
