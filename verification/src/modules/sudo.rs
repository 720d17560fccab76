//! The privilege-grant operation: builds a script that installs a sudoers
//! rule for one user, validating it with `visudo` before installing.
use vstd::prelude::*;

use crate::text::{char_alphanumeric, is_alphanumeric_char, contains_str};
use vstd::string::StringSliceAdditionalSpecFns;

verus! {

/// The sudoers rule line for the user.
pub open spec fn spec_sudo_rule(user: Seq<char>, nopass: bool) -> Seq<char> {
    if nopass {
        user + " ALL=(ALL) NOPASSWD: ALL"@
    } else {
        user + " ALL=(ALL) ALL"@
    }
}

/// A username within the module's length bound: between 1 and 32 bytes in
/// its UTF-8 encoding.
pub open spec fn spec_username_len_ok(user: Seq<char>) -> bool {
    1 <= vstd::utf8::encode_utf8(user).len() <= 32
}

/// A username of accepted characters: each alphanumeric, `_` or `-`.
pub open spec fn spec_valid_username(user: Seq<char>) -> bool {
    forall|i: int|
        0 <= i < user.len() ==> char_alphanumeric(#[trigger] user[i]) || user[i] == '_'
            || user[i] == '-'
}

/// The installation script: the validated rule spliced into a fixed shell
/// template.
pub open spec fn spec_sudo_script(user: Seq<char>, nopass: bool) -> Seq<char> {
    r#"#!/bin/bash
set -e

USER='"#@ + user + r#"'
RULE='"#@ + spec_sudo_rule(user, nopass) + r#"'
SUDOERS_FILE="/etc/sudoers.d/$USER"

# Check if user exists
if ! id "$USER" >/dev/null 2>&1; then
    echo "Warning: User '$USER' does not exist" >&2
fi

# Create temp file for validation
TMP_FILE=$(mktemp)
echo "$RULE" > "$TMP_FILE"
chmod 0440 "$TMP_FILE"

# Validate syntax
if ! visudo -q -c -f "$TMP_FILE" 2>/dev/null; then
    rm -f "$TMP_FILE"
    echo "Error: Invalid sudoers syntax" >&2
    exit 1
fi

# Install the rule
mv "$TMP_FILE" "$SUDOERS_FILE"
chmod 0440 "$SUDOERS_FILE"
chown root:root "$SUDOERS_FILE"

echo "Sudo access granted to $USER"
"#@
}

/// Builds the privilege-grant command for `args`: the first argument is the
/// user, and any `--nopass` argument asks for the passwordless rule.  A
/// missing or malformed username is rejected with the matching diagnostic.
pub fn build_command(args: &Vec<String>) -> (r: Result<String, String>)
    ensures
        args.deep_view().len() == 0 ==> (r matches Err(m) && m@ == "Usage: sudo <user> [--nopass]"@),
        args.deep_view().len() > 0 ==> ({
            let user = args.deep_view()[0];
            let nopass = args.deep_view().contains("--nopass"@);
            if !spec_username_len_ok(user) {
                r matches Err(m) && m@ == "Invalid username length: "@ + user
            } else if !spec_valid_username(user) {
                r matches Err(m) && m@ == "Invalid username characters: "@ + user
            } else {
                r matches Ok(s) && s@ == spec_sudo_script(user, nopass)
            }
        }),
{
    if args.len() == 0 {
        return Err(String::from_str("Usage: sudo <user> [--nopass]"));
    }
    let ghost dv = args.deep_view();
    proof {
        assert(dv[0] == args@[0]@);
    }
    let user = args[0].as_str();
    let nopass = contains_str(args, "--nopass");
    let byte_len = user.as_bytes().len();
    proof {
        assert(user.spec_bytes() == vstd::utf8::encode_utf8(user@));
    }
    if byte_len == 0 || byte_len > 32 {
        let mut m = String::from_str("Invalid username length: ");
        m.append(user);
        return Err(m);
    }
    let ulen = user.unicode_len();
    let mut i: usize = 0;
    while i < ulen
        invariant
            i <= ulen,
            ulen == user@.len(),
            dv == args.deep_view(),
            dv.len() > 0,
            user@ == dv[0],
            spec_username_len_ok(user@),
            nopass == dv.contains("--nopass"@),
            forall|j: int|
                0 <= j < i ==> char_alphanumeric(#[trigger] user@[j]) || user@[j] == '_'
                    || user@[j] == '-',
        decreases ulen - i,
    {
        let c = user.get_char(i);
        let ok = is_alphanumeric_char(c) || c == '_' || c == '-';
        if !ok {
            proof {
                assert(!spec_valid_username(user@)) by {
                    assert(0 <= i < user@.len() && !(char_alphanumeric(user@[i as int])
                        || user@[i as int] == '_' || user@[i as int] == '-'));
                }
            }
            let mut m = String::from_str("Invalid username characters: ");
            m.append(user);
            return Err(m);
        }
        i += 1;
    }
    let mut script = String::from_str(r#"#!/bin/bash
set -e

USER='"#);
    script.append(user);
    script.append(r#"'
RULE='"#);
    script.append(user);
    if nopass {
        script.append(" ALL=(ALL) NOPASSWD: ALL");
    } else {
        script.append(" ALL=(ALL) ALL");
    }
    script.append(r#"'
SUDOERS_FILE="/etc/sudoers.d/$USER"

# Check if user exists
if ! id "$USER" >/dev/null 2>&1; then
    echo "Warning: User '$USER' does not exist" >&2
fi

# Create temp file for validation
TMP_FILE=$(mktemp)
echo "$RULE" > "$TMP_FILE"
chmod 0440 "$TMP_FILE"

# Validate syntax
if ! visudo -q -c -f "$TMP_FILE" 2>/dev/null; then
    rm -f "$TMP_FILE"
    echo "Error: Invalid sudoers syntax" >&2
    exit 1
fi

# Install the rule
mv "$TMP_FILE" "$SUDOERS_FILE"
chmod 0440 "$SUDOERS_FILE"
chown root:root "$SUDOERS_FILE"

echo "Sudo access granted to $USER"
"#);
    proof {
        assert(script@ =~= spec_sudo_script(user@, nopass));
    }
    Ok(script)
}

} // verus!
