//! The operating-system update operation: builds a script that detects the
//! host's package manager, applies updates, and optionally schedules a
//! reboot.
use vstd::prelude::*;

use crate::text::{bool_str, contains_str, spec_bool_str};

verus! {

/// The update script: the three mode flags spliced into a fixed shell
/// template.
pub open spec fn spec_update_script(security_only: bool, auto_reboot: bool, dry_run: bool) -> Seq<
    char,
> {
    r#"#!/bin/bash
set -e

SECURITY_ONLY="#@ + spec_bool_str(security_only) + r#"
AUTO_REBOOT="#@ + spec_bool_str(auto_reboot) + r#"
DRY_RUN="#@
        + spec_bool_str(dry_run) + r#"

echo "Starting OS update (security_only=$SECURITY_ONLY, auto_reboot=$AUTO_REBOOT)"

# Check disk space
DISK_USAGE=$(df / | tail -1 | awk '{print $5}' | sed 's/%//')
if [[ $DISK_USAGE -gt 90 ]]; then
    echo "Error: Disk usage is $DISK_USAGE% - aborting" >&2
    exit 1
fi

# Detect package manager and update
if command -v apt-get >/dev/null 2>&1; then
    echo "Detected: Debian/Ubuntu"
    export DEBIAN_FRONTEND=noninteractive
    
    if [[ "$DRY_RUN" == "true" ]]; then
        apt-get update -qq
        apt-get upgrade -s
    else
        apt-get update -qq || exit 1
        
        if [[ "$SECURITY_ONLY" == "true" ]]; then
            apt-get upgrade -y --with-new-pkgs \
                -o Dpkg::Options::="--force-confdef" \
                -o Dpkg::Options::="--force-confold" || exit 1
        else
            apt-get upgrade -y \
                -o Dpkg::Options::="--force-confdef" \
                -o Dpkg::Options::="--force-confold" || exit 1
        fi
        
        apt-get autoremove -y || true
    fi
    
    # Check if reboot required
    if [[ -f /var/run/reboot-required && "$AUTO_REBOOT" == "true" ]]; then
        echo "Reboot required - scheduling in 1 minute"
        shutdown -r +1 "System updated - rebooting"
    fi
    
elif command -v yum >/dev/null 2>&1; then
    echo "Detected: RHEL/CentOS"
    
    if [[ "$DRY_RUN" == "true" ]]; then
        yum check-update || true
    else
        if [[ "$SECURITY_ONLY" == "true" ]]; then
            yum update -y --security || exit 1
        else
            yum update -y || exit 1
        fi
        
        yum autoremove -y || true
    fi
    
    # Check if reboot required
    if [[ "$AUTO_REBOOT" == "true" ]]; then
        if needs-restarting -r >/dev/null 2>&1; then
            : # No reboot needed
        else
            echo "Reboot required - scheduling in 1 minute"
            shutdown -r +1 "System updated - rebooting"
        fi
    fi
    
elif command -v dnf >/dev/null 2>&1; then
    echo "Detected: Fedora"
    
    if [[ "$DRY_RUN" == "true" ]]; then
        dnf check-update || true
    else
        if [[ "$SECURITY_ONLY" == "true" ]]; then
            dnf upgrade -y --security || exit 1
        else
            dnf upgrade -y || exit 1
        fi
        
        dnf autoremove -y || true
    fi
    
    # Check if reboot required
    if [[ "$AUTO_REBOOT" == "true" ]]; then
        if dnf needs-restarting -r >/dev/null 2>&1; then
            : # No reboot needed
        else
            echo "Reboot required - scheduling in 1 minute"
            shutdown -r +1 "System updated - rebooting"
        fi
    fi
    
else
    echo "Error: No supported package manager found" >&2
    exit 1
fi

echo "Update completed successfully"
"#@
}

/// Builds the update command for `args`; the recognized flags are
/// `--security-only`, `--auto-reboot` and `--dry-run`, and anything else is
/// ignored.
pub fn build_command(args: &Vec<String>) -> (r: Result<String, String>)
    ensures
        r matches Ok(s) && s@ == spec_update_script(
            args.deep_view().contains("--security-only"@),
            args.deep_view().contains("--auto-reboot"@),
            args.deep_view().contains("--dry-run"@),
        ),
{
    let security_only = contains_str(args, "--security-only");
    let auto_reboot = contains_str(args, "--auto-reboot");
    let dry_run = contains_str(args, "--dry-run");
    let mut script = String::from_str(r#"#!/bin/bash
set -e

SECURITY_ONLY="#);
    script.append(bool_str(security_only));
    script.append(r#"
AUTO_REBOOT="#);
    script.append(bool_str(auto_reboot));
    script.append(r#"
DRY_RUN="#);
    script.append(bool_str(dry_run));
    script.append(r#"

echo "Starting OS update (security_only=$SECURITY_ONLY, auto_reboot=$AUTO_REBOOT)"

# Check disk space
DISK_USAGE=$(df / | tail -1 | awk '{print $5}' | sed 's/%//')
if [[ $DISK_USAGE -gt 90 ]]; then
    echo "Error: Disk usage is $DISK_USAGE% - aborting" >&2
    exit 1
fi

# Detect package manager and update
if command -v apt-get >/dev/null 2>&1; then
    echo "Detected: Debian/Ubuntu"
    export DEBIAN_FRONTEND=noninteractive
    
    if [[ "$DRY_RUN" == "true" ]]; then
        apt-get update -qq
        apt-get upgrade -s
    else
        apt-get update -qq || exit 1
        
        if [[ "$SECURITY_ONLY" == "true" ]]; then
            apt-get upgrade -y --with-new-pkgs \
                -o Dpkg::Options::="--force-confdef" \
                -o Dpkg::Options::="--force-confold" || exit 1
        else
            apt-get upgrade -y \
                -o Dpkg::Options::="--force-confdef" \
                -o Dpkg::Options::="--force-confold" || exit 1
        fi
        
        apt-get autoremove -y || true
    fi
    
    # Check if reboot required
    if [[ -f /var/run/reboot-required && "$AUTO_REBOOT" == "true" ]]; then
        echo "Reboot required - scheduling in 1 minute"
        shutdown -r +1 "System updated - rebooting"
    fi
    
elif command -v yum >/dev/null 2>&1; then
    echo "Detected: RHEL/CentOS"
    
    if [[ "$DRY_RUN" == "true" ]]; then
        yum check-update || true
    else
        if [[ "$SECURITY_ONLY" == "true" ]]; then
            yum update -y --security || exit 1
        else
            yum update -y || exit 1
        fi
        
        yum autoremove -y || true
    fi
    
    # Check if reboot required
    if [[ "$AUTO_REBOOT" == "true" ]]; then
        if needs-restarting -r >/dev/null 2>&1; then
            : # No reboot needed
        else
            echo "Reboot required - scheduling in 1 minute"
            shutdown -r +1 "System updated - rebooting"
        fi
    fi
    
elif command -v dnf >/dev/null 2>&1; then
    echo "Detected: Fedora"
    
    if [[ "$DRY_RUN" == "true" ]]; then
        dnf check-update || true
    else
        if [[ "$SECURITY_ONLY" == "true" ]]; then
            dnf upgrade -y --security || exit 1
        else
            dnf upgrade -y || exit 1
        fi
        
        dnf autoremove -y || true
    fi
    
    # Check if reboot required
    if [[ "$AUTO_REBOOT" == "true" ]]; then
        if dnf needs-restarting -r >/dev/null 2>&1; then
            : # No reboot needed
        else
            echo "Reboot required - scheduling in 1 minute"
            shutdown -r +1 "System updated - rebooting"
        fi
    fi
    
else
    echo "Error: No supported package manager found" >&2
    exit 1
fi

echo "Update completed successfully"
"#);
    proof {
        assert(script@ =~= spec_update_script(security_only, auto_reboot, dry_run));
    }
    Ok(script)
}

} // verus!
