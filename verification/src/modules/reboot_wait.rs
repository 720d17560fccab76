//! The reboot operation: builds a script that checks whether a reboot is
//! needed, and either reports or performs it after a countdown.
use vstd::prelude::*;

use crate::text::{
    bool_str, contains_str, i64_to_string, parse_i32, spec_bool_str, spec_int_str, spec_parse_i32,
    str_eq,
};

verus! {

/// The options the module understands, scanned left to right: `--delay N`
/// (a malformed count falls back to 5), `--check` and `--force`; anything
/// else is ignored.
pub open spec fn spec_reboot_opts(
    args: Seq<Seq<char>>,
    i: int,
    delay: i32,
    check_only: bool,
    force: bool,
) -> (i32, bool, bool)
    decreases args.len() - i,
{
    if i < 0 || i >= args.len() {
        (delay, check_only, force)
    } else if args[i] == "--delay"@ {
        if i + 1 < args.len() {
            let d = match spec_parse_i32(args[i + 1]) {
                Some(v) => v,
                None => 5,
            };
            spec_reboot_opts(args, i + 2, d, check_only, force)
        } else {
            spec_reboot_opts(args, i + 1, delay, check_only, force)
        }
    } else if args[i] == "--check"@ {
        spec_reboot_opts(args, i + 1, delay, true, force)
    } else if args[i] == "--force"@ {
        spec_reboot_opts(args, i + 1, delay, check_only, true)
    } else {
        spec_reboot_opts(args, i + 1, delay, check_only, force)
    }
}

/// The check-only script: reports whether a reboot is needed.
pub open spec fn spec_check_script() -> Seq<char> {
    r#"#!/bin/bash
REBOOT_NEEDED=false

# Check various indicators
if [[ -f /var/run/reboot-required ]]; then
    echo "Reboot required: /var/run/reboot-required exists"
    REBOOT_NEEDED=true
fi

# Check kernel version mismatch
if command -v uname >/dev/null 2>&1; then
    CURRENT_KERNEL=$(uname -r)
    
    if command -v dpkg >/dev/null 2>&1; then
        LATEST_KERNEL=$(dpkg -l 'linux-image-*' | grep '^ii' | awk '{print $2}' | sed 's/linux-image-//' | sort -V | tail -1)
    elif command -v rpm >/dev/null 2>&1; then
        LATEST_KERNEL=$(rpm -qa kernel | sed 's/kernel-//' | sort -V | tail -1)
    fi
    
    if [[ -n "$LATEST_KERNEL" && "$CURRENT_KERNEL" != "$LATEST_KERNEL" ]]; then
        echo "Reboot required: kernel update ($CURRENT_KERNEL -> $LATEST_KERNEL)"
        REBOOT_NEEDED=true
    fi
fi

if [[ "$REBOOT_NEEDED" == "true" ]]; then
    exit 1
else
    echo "No reboot required"
    exit 0
fi
"#@
}

/// The reboot script: the delay and the force flag spliced into a fixed
/// shell template.
pub open spec fn spec_reboot_script(delay: i32, force: bool) -> Seq<char> {
    r#"#!/bin/bash
set -e

DELAY="#@ + spec_int_str(delay as int) + r#"
FORCE="#@ + spec_bool_str(force) + r#"

echo "Checking if reboot is required..."

REBOOT_NEEDED=false

# Check indicators
if [[ -f /var/run/reboot-required ]]; then
    REBOOT_NEEDED=true
fi

# Check kernel
CURRENT_KERNEL=$(uname -r)
if command -v dpkg >/dev/null 2>&1; then
    LATEST_KERNEL=$(dpkg -l 'linux-image-*' | grep '^ii' | awk '{print $2}' | sed 's/linux-image-//' | sort -V | tail -1)
elif command -v rpm >/dev/null 2>&1; then
    LATEST_KERNEL=$(rpm -qa kernel | sed 's/kernel-//' | sort -V | tail -1)
fi

if [[ -n "$LATEST_KERNEL" && "$CURRENT_KERNEL" != "$LATEST_KERNEL" ]]; then
    REBOOT_NEEDED=true
fi

# Decide whether to reboot
if [[ "$REBOOT_NEEDED" == "true" || "$FORCE" == "true" ]]; then
    echo "Reboot will occur in $DELAY seconds..."
    
    # Show active users
    USERS=$(who | wc -l)
    if [[ $USERS -gt 0 ]]; then
        echo "Warning: $USERS users currently logged in"
        who
    fi
    
    # Sync filesystems
    sync
    
    # Countdown
    for i in $(seq $DELAY -1 1); do
        echo -ne "\rRebooting in $i seconds... "
        sleep 1
    done
    echo ""
    
    # Reboot
    echo "Initiating reboot"
    shutdown -r now
else
    echo "No reboot required"
fi
"#@
}

/// Builds the reboot command for `args`.
pub fn build_command(args: &Vec<String>) -> (r: Result<String, String>)
    ensures
        ({
            let (delay, check_only, force) = spec_reboot_opts(args.deep_view(), 0, 5, false, false);
            r matches Ok(s) && s@ == if check_only {
                spec_check_script()
            } else {
                spec_reboot_script(delay, force)
            }
        }),
{
    let ghost dv = args.deep_view();
    let mut delay: i32 = 5;
    let mut check_only = false;
    let mut force = false;
    let mut i: usize = 0;
    while i < args.len()
        invariant
            i <= args@.len(),
            dv == args.deep_view(),
            dv.len() == args@.len(),
            spec_reboot_opts(dv, 0, 5, false, false) == spec_reboot_opts(
                dv,
                i as int,
                delay,
                check_only,
                force,
            ),
        decreases args@.len() - i,
    {
        proof {
            assert(dv[i as int] == args@[i as int]@);
            if i + 1 < args@.len() {
                assert(dv[i + 1] == args@[i + 1]@);
            }
        }
        if str_eq(args[i].as_str(), "--delay") {
            if i + 1 < args.len() {
                delay = match parse_i32(args[i + 1].as_str()) {
                    Some(v) => v,
                    None => 5,
                };
                i += 2;
            } else {
                i += 1;
            }
        } else if str_eq(args[i].as_str(), "--check") {
            check_only = true;
            i += 1;
        } else if str_eq(args[i].as_str(), "--force") {
            force = true;
            i += 1;
        } else {
            i += 1;
        }
    }
    if check_only {
        Ok(String::from_str(r#"#!/bin/bash
REBOOT_NEEDED=false

# Check various indicators
if [[ -f /var/run/reboot-required ]]; then
    echo "Reboot required: /var/run/reboot-required exists"
    REBOOT_NEEDED=true
fi

# Check kernel version mismatch
if command -v uname >/dev/null 2>&1; then
    CURRENT_KERNEL=$(uname -r)
    
    if command -v dpkg >/dev/null 2>&1; then
        LATEST_KERNEL=$(dpkg -l 'linux-image-*' | grep '^ii' | awk '{print $2}' | sed 's/linux-image-//' | sort -V | tail -1)
    elif command -v rpm >/dev/null 2>&1; then
        LATEST_KERNEL=$(rpm -qa kernel | sed 's/kernel-//' | sort -V | tail -1)
    fi
    
    if [[ -n "$LATEST_KERNEL" && "$CURRENT_KERNEL" != "$LATEST_KERNEL" ]]; then
        echo "Reboot required: kernel update ($CURRENT_KERNEL -> $LATEST_KERNEL)"
        REBOOT_NEEDED=true
    fi
fi

if [[ "$REBOOT_NEEDED" == "true" ]]; then
    exit 1
else
    echo "No reboot required"
    exit 0
fi
"#))
    } else {
        let mut script = String::from_str(r#"#!/bin/bash
set -e

DELAY="#);
        let rendered = i64_to_string(delay as i64);
        script.append(rendered.as_str());
        script.append(r#"
FORCE="#);
        script.append(bool_str(force));
        script.append(r#"

echo "Checking if reboot is required..."

REBOOT_NEEDED=false

# Check indicators
if [[ -f /var/run/reboot-required ]]; then
    REBOOT_NEEDED=true
fi

# Check kernel
CURRENT_KERNEL=$(uname -r)
if command -v dpkg >/dev/null 2>&1; then
    LATEST_KERNEL=$(dpkg -l 'linux-image-*' | grep '^ii' | awk '{print $2}' | sed 's/linux-image-//' | sort -V | tail -1)
elif command -v rpm >/dev/null 2>&1; then
    LATEST_KERNEL=$(rpm -qa kernel | sed 's/kernel-//' | sort -V | tail -1)
fi

if [[ -n "$LATEST_KERNEL" && "$CURRENT_KERNEL" != "$LATEST_KERNEL" ]]; then
    REBOOT_NEEDED=true
fi

# Decide whether to reboot
if [[ "$REBOOT_NEEDED" == "true" || "$FORCE" == "true" ]]; then
    echo "Reboot will occur in $DELAY seconds..."
    
    # Show active users
    USERS=$(who | wc -l)
    if [[ $USERS -gt 0 ]]; then
        echo "Warning: $USERS users currently logged in"
        who
    fi
    
    # Sync filesystems
    sync
    
    # Countdown
    for i in $(seq $DELAY -1 1); do
        echo -ne "\rRebooting in $i seconds... "
        sleep 1
    done
    echo ""
    
    # Reboot
    echo "Initiating reboot"
    shutdown -r now
else
    echo "No reboot required"
fi
"#);
        proof {
            assert(script@ =~= spec_reboot_script(delay, force));
        }
        Ok(script)
    }
}

} // verus!
