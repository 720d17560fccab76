use krust::modules::collect_facts;
use krust::modules::os_update;
use krust::modules::reboot_wait;
use krust::modules::sudo;

fn args_of(items: &[&str]) -> Vec<String> {
    items.iter().map(|s| s.to_string()).collect()
}

fn sudo_script(user: &str, rule: &str) -> String {
    format!(r#"#!/bin/bash
set -e

USER='{}'
RULE='{}'
SUDOERS_FILE="/etc/sudoers.d/$USER"

# Check if user exists
if ! id "$USER" >/dev/null 2>&1; then
    echo "Warning: User '$USER' does not exist" >&2
fi

# Create temp file for validation
TMP_FILE=$(mktemp)
echo "$RULE" > "$TMP_FILE"
chmod 0440 "$TMP_FILE"

# Validate syntax
if ! visudo -q -c -f "$TMP_FILE" 2>/dev/null; then
    rm -f "$TMP_FILE"
    echo "Error: Invalid sudoers syntax" >&2
    exit 1
fi

# Install the rule
mv "$TMP_FILE" "$SUDOERS_FILE"
chmod 0440 "$SUDOERS_FILE"
chown root:root "$SUDOERS_FILE"

echo "Sudo access granted to $USER"
"#, user, rule)
}

#[test]
fn sudo_script_matches_template() {
    let user = "alice";
    let rule = format!("{} ALL=(ALL) ALL", user);
    let expected = sudo_script(user, &rule);
    assert_eq!(sudo::build_command(&args_of(&["alice"])).unwrap(), expected);
}

#[test]
fn sudo_nopass_rule() {
    let user = "deploy-bot_2";
    let rule = format!("{} ALL=(ALL) NOPASSWD: ALL", user);
    let expected = sudo_script(user, &rule);
    assert_eq!(
        sudo::build_command(&args_of(&["deploy-bot_2", "--nopass"])).unwrap(),
        expected
    );
}

#[test]
fn sudo_rejects_bad_usernames() {
    assert_eq!(
        sudo::build_command(&Vec::new()).unwrap_err(),
        "Usage: sudo <user> [--nopass]"
    );
    let long = "x".repeat(33);
    assert_eq!(
        sudo::build_command(&args_of(&[&long])).unwrap_err(),
        format!("Invalid username length: {}", long)
    );
    assert_eq!(
        sudo::build_command(&args_of(&["bad name"])).unwrap_err(),
        "Invalid username characters: bad name"
    );
    assert_eq!(
        sudo::build_command(&args_of(&["semi;colon"])).unwrap_err(),
        "Invalid username characters: semi;colon"
    );
}

#[test]
fn sudo_length_bound_counts_bytes() {
    // seventeen characters, thirty-four bytes: over the 32-byte bound
    let wide = "\u{fc}".repeat(17);
    assert_eq!(
        sudo::build_command(&args_of(&[&wide])).unwrap_err(),
        format!("Invalid username length: {}", wide)
    );
    // six characters, seven bytes: within the bound
    let user = "m\u{fc}ller";
    let rule = format!("{} ALL=(ALL) ALL", user);
    assert_eq!(sudo::build_command(&args_of(&[user])).unwrap(), sudo_script(user, &rule));
}

#[test]
fn os_update_defaults() {
    let expected = format!(r#"#!/bin/bash
set -e

SECURITY_ONLY={}
AUTO_REBOOT={}
DRY_RUN={}

echo "Starting OS update (security_only=$SECURITY_ONLY, auto_reboot=$AUTO_REBOOT)"

# Check disk space
DISK_USAGE=$(df / | tail -1 | awk '{{print $5}}' | sed 's/%//')
if [[ $DISK_USAGE -gt 90 ]]; then
    echo "Error: Disk usage is $DISK_USAGE% - aborting" >&2
    exit 1
fi

# Detect package manager and update
if command -v apt-get >/dev/null 2>&1; then
    echo "Detected: Debian/Ubuntu"
    export DEBIAN_FRONTEND=noninteractive
    
    if [[ "$DRY_RUN" == "true" ]]; then
        apt-get update -qq
        apt-get upgrade -s
    else
        apt-get update -qq || exit 1
        
        if [[ "$SECURITY_ONLY" == "true" ]]; then
            apt-get upgrade -y --with-new-pkgs \
                -o Dpkg::Options::="--force-confdef" \
                -o Dpkg::Options::="--force-confold" || exit 1
        else
            apt-get upgrade -y \
                -o Dpkg::Options::="--force-confdef" \
                -o Dpkg::Options::="--force-confold" || exit 1
        fi
        
        apt-get autoremove -y || true
    fi
    
    # Check if reboot required
    if [[ -f /var/run/reboot-required && "$AUTO_REBOOT" == "true" ]]; then
        echo "Reboot required - scheduling in 1 minute"
        shutdown -r +1 "System updated - rebooting"
    fi
    
elif command -v yum >/dev/null 2>&1; then
    echo "Detected: RHEL/CentOS"
    
    if [[ "$DRY_RUN" == "true" ]]; then
        yum check-update || true
    else
        if [[ "$SECURITY_ONLY" == "true" ]]; then
            yum update -y --security || exit 1
        else
            yum update -y || exit 1
        fi
        
        yum autoremove -y || true
    fi
    
    # Check if reboot required
    if [[ "$AUTO_REBOOT" == "true" ]]; then
        if needs-restarting -r >/dev/null 2>&1; then
            : # No reboot needed
        else
            echo "Reboot required - scheduling in 1 minute"
            shutdown -r +1 "System updated - rebooting"
        fi
    fi
    
elif command -v dnf >/dev/null 2>&1; then
    echo "Detected: Fedora"
    
    if [[ "$DRY_RUN" == "true" ]]; then
        dnf check-update || true
    else
        if [[ "$SECURITY_ONLY" == "true" ]]; then
            dnf upgrade -y --security || exit 1
        else
            dnf upgrade -y || exit 1
        fi
        
        dnf autoremove -y || true
    fi
    
    # Check if reboot required
    if [[ "$AUTO_REBOOT" == "true" ]]; then
        if dnf needs-restarting -r >/dev/null 2>&1; then
            : # No reboot needed
        else
            echo "Reboot required - scheduling in 1 minute"
            shutdown -r +1 "System updated - rebooting"
        fi
    fi
    
else
    echo "Error: No supported package manager found" >&2
    exit 1
fi

echo "Update completed successfully"
"#, false, false, false);
    assert_eq!(os_update::build_command(&Vec::new()).unwrap(), expected);
}

#[test]
fn os_update_honors_flags() {
    let expected = format!(r#"#!/bin/bash
set -e

SECURITY_ONLY={}
AUTO_REBOOT={}
DRY_RUN={}

echo "Starting OS update (security_only=$SECURITY_ONLY, auto_reboot=$AUTO_REBOOT)"

# Check disk space
DISK_USAGE=$(df / | tail -1 | awk '{{print $5}}' | sed 's/%//')
if [[ $DISK_USAGE -gt 90 ]]; then
    echo "Error: Disk usage is $DISK_USAGE% - aborting" >&2
    exit 1
fi

# Detect package manager and update
if command -v apt-get >/dev/null 2>&1; then
    echo "Detected: Debian/Ubuntu"
    export DEBIAN_FRONTEND=noninteractive
    
    if [[ "$DRY_RUN" == "true" ]]; then
        apt-get update -qq
        apt-get upgrade -s
    else
        apt-get update -qq || exit 1
        
        if [[ "$SECURITY_ONLY" == "true" ]]; then
            apt-get upgrade -y --with-new-pkgs \
                -o Dpkg::Options::="--force-confdef" \
                -o Dpkg::Options::="--force-confold" || exit 1
        else
            apt-get upgrade -y \
                -o Dpkg::Options::="--force-confdef" \
                -o Dpkg::Options::="--force-confold" || exit 1
        fi
        
        apt-get autoremove -y || true
    fi
    
    # Check if reboot required
    if [[ -f /var/run/reboot-required && "$AUTO_REBOOT" == "true" ]]; then
        echo "Reboot required - scheduling in 1 minute"
        shutdown -r +1 "System updated - rebooting"
    fi
    
elif command -v yum >/dev/null 2>&1; then
    echo "Detected: RHEL/CentOS"
    
    if [[ "$DRY_RUN" == "true" ]]; then
        yum check-update || true
    else
        if [[ "$SECURITY_ONLY" == "true" ]]; then
            yum update -y --security || exit 1
        else
            yum update -y || exit 1
        fi
        
        yum autoremove -y || true
    fi
    
    # Check if reboot required
    if [[ "$AUTO_REBOOT" == "true" ]]; then
        if needs-restarting -r >/dev/null 2>&1; then
            : # No reboot needed
        else
            echo "Reboot required - scheduling in 1 minute"
            shutdown -r +1 "System updated - rebooting"
        fi
    fi
    
elif command -v dnf >/dev/null 2>&1; then
    echo "Detected: Fedora"
    
    if [[ "$DRY_RUN" == "true" ]]; then
        dnf check-update || true
    else
        if [[ "$SECURITY_ONLY" == "true" ]]; then
            dnf upgrade -y --security || exit 1
        else
            dnf upgrade -y || exit 1
        fi
        
        dnf autoremove -y || true
    fi
    
    # Check if reboot required
    if [[ "$AUTO_REBOOT" == "true" ]]; then
        if dnf needs-restarting -r >/dev/null 2>&1; then
            : # No reboot needed
        else
            echo "Reboot required - scheduling in 1 minute"
            shutdown -r +1 "System updated - rebooting"
        fi
    fi
    
else
    echo "Error: No supported package manager found" >&2
    exit 1
fi

echo "Update completed successfully"
"#, true, true, true);
    assert_eq!(
        os_update::build_command(&args_of(&["--security-only", "--auto-reboot", "--dry-run"]))
            .unwrap(),
        expected
    );
}

#[test]
fn reboot_check_mode_script() {
    let expected = r#"#!/bin/bash
REBOOT_NEEDED=false

# Check various indicators
if [[ -f /var/run/reboot-required ]]; then
    echo "Reboot required: /var/run/reboot-required exists"
    REBOOT_NEEDED=true
fi

# Check kernel version mismatch
if command -v uname >/dev/null 2>&1; then
    CURRENT_KERNEL=$(uname -r)
    
    if command -v dpkg >/dev/null 2>&1; then
        LATEST_KERNEL=$(dpkg -l 'linux-image-*' | grep '^ii' | awk '{print $2}' | sed 's/linux-image-//' | sort -V | tail -1)
    elif command -v rpm >/dev/null 2>&1; then
        LATEST_KERNEL=$(rpm -qa kernel | sed 's/kernel-//' | sort -V | tail -1)
    fi
    
    if [[ -n "$LATEST_KERNEL" && "$CURRENT_KERNEL" != "$LATEST_KERNEL" ]]; then
        echo "Reboot required: kernel update ($CURRENT_KERNEL -> $LATEST_KERNEL)"
        REBOOT_NEEDED=true
    fi
fi

if [[ "$REBOOT_NEEDED" == "true" ]]; then
    exit 1
else
    echo "No reboot required"
    exit 0
fi
"#.to_string();
    assert_eq!(reboot_wait::build_command(&args_of(&["--check"])).unwrap(), expected);
}

#[test]
fn reboot_mode_with_delay_and_force() {
    let expected = format!(r#"#!/bin/bash
set -e

DELAY={}
FORCE={}

echo "Checking if reboot is required..."

REBOOT_NEEDED=false

# Check indicators
if [[ -f /var/run/reboot-required ]]; then
    REBOOT_NEEDED=true
fi

# Check kernel
CURRENT_KERNEL=$(uname -r)
if command -v dpkg >/dev/null 2>&1; then
    LATEST_KERNEL=$(dpkg -l 'linux-image-*' | grep '^ii' | awk '{{print $2}}' | sed 's/linux-image-//' | sort -V | tail -1)
elif command -v rpm >/dev/null 2>&1; then
    LATEST_KERNEL=$(rpm -qa kernel | sed 's/kernel-//' | sort -V | tail -1)
fi

if [[ -n "$LATEST_KERNEL" && "$CURRENT_KERNEL" != "$LATEST_KERNEL" ]]; then
    REBOOT_NEEDED=true
fi

# Decide whether to reboot
if [[ "$REBOOT_NEEDED" == "true" || "$FORCE" == "true" ]]; then
    echo "Reboot will occur in $DELAY seconds..."
    
    # Show active users
    USERS=$(who | wc -l)
    if [[ $USERS -gt 0 ]]; then
        echo "Warning: $USERS users currently logged in"
        who
    fi
    
    # Sync filesystems
    sync
    
    # Countdown
    for i in $(seq $DELAY -1 1); do
        echo -ne "\rRebooting in $i seconds... "
        sleep 1
    done
    echo ""
    
    # Reboot
    echo "Initiating reboot"
    shutdown -r now
else
    echo "No reboot required"
fi
"#, 10, true);
    assert_eq!(
        reboot_wait::build_command(&args_of(&["--delay", "10", "--force"])).unwrap(),
        expected
    );
}

#[test]
fn reboot_malformed_delay_falls_back() {
    let expected = format!(r#"#!/bin/bash
set -e

DELAY={}
FORCE={}

echo "Checking if reboot is required..."

REBOOT_NEEDED=false

# Check indicators
if [[ -f /var/run/reboot-required ]]; then
    REBOOT_NEEDED=true
fi

# Check kernel
CURRENT_KERNEL=$(uname -r)
if command -v dpkg >/dev/null 2>&1; then
    LATEST_KERNEL=$(dpkg -l 'linux-image-*' | grep '^ii' | awk '{{print $2}}' | sed 's/linux-image-//' | sort -V | tail -1)
elif command -v rpm >/dev/null 2>&1; then
    LATEST_KERNEL=$(rpm -qa kernel | sed 's/kernel-//' | sort -V | tail -1)
fi

if [[ -n "$LATEST_KERNEL" && "$CURRENT_KERNEL" != "$LATEST_KERNEL" ]]; then
    REBOOT_NEEDED=true
fi

# Decide whether to reboot
if [[ "$REBOOT_NEEDED" == "true" || "$FORCE" == "true" ]]; then
    echo "Reboot will occur in $DELAY seconds..."
    
    # Show active users
    USERS=$(who | wc -l)
    if [[ $USERS -gt 0 ]]; then
        echo "Warning: $USERS users currently logged in"
        who
    fi
    
    # Sync filesystems
    sync
    
    # Countdown
    for i in $(seq $DELAY -1 1); do
        echo -ne "\rRebooting in $i seconds... "
        sleep 1
    done
    echo ""
    
    # Reboot
    echo "Initiating reboot"
    shutdown -r now
else
    echo "No reboot required"
fi
"#, 5, false);
    assert_eq!(
        reboot_wait::build_command(&args_of(&["--delay", "soon"])).unwrap(),
        expected
    );
}

fn facts_script(
    output_format: &str,
    csv_filename: &str,
    csv_columns: &str,
    include_services: bool,
    include_network: bool,
    include_disks: bool,
) -> String {
    format!(
        r#"
#!/bin/bash
set -e

# Color output functions
red() {{ echo -e "\033[31m$1\033[0m"; }}
green() {{ echo -e "\033[32m$1\033[0m"; }}
yellow() {{ echo -e "\033[33m$1\033[0m"; }}
blue() {{ echo -e "\033[34m$1\033[0m"; }}

OUTPUT_FORMAT="{output_format}"
CSV_FILE="{csv_filename}"
CSV_COLUMNS=({csv_columns})
INCLUDE_SERVICES={include_services}
INCLUDE_NETWORK={include_network}
INCLUDE_DISKS={include_disks}

green "🔍 KRUST Fact Collection Starting..."
blue "📊 Output format: $OUTPUT_FORMAT"
if [[ "$OUTPUT_FORMAT" == "csv" ]]; then
    blue "📁 CSV file: $CSV_FILE"
    blue "📋 CSV columns: ${{CSV_COLUMNS[*]}}"
fi

# Basic system information
HOSTNAME=$(hostname -f 2>/dev/null || hostname)
IP_ADDRESS=$(ip route get 1.1.1.1 2>/dev/null | grep -oP 'src \K\S+' || echo "unknown")
OS_NAME=$(grep '^NAME=' /etc/os-release 2>/dev/null | cut -d'"' -f2 || uname -s)
OS_VERSION=$(grep '^VERSION=' /etc/os-release 2>/dev/null | cut -d'"' -f2 || uname -r)
KERNEL_VERSION=$(uname -r)
ARCHITECTURE=$(uname -m)
CPU_CORES=$(nproc)
UPTIME_HOURS=$(awk '{{printf "%.1f", $1/3600}}' /proc/uptime 2>/dev/null || echo "0")
LOAD_AVERAGE=$(cat /proc/loadavg 2>/dev/null | cut -d' ' -f1-3 || echo "unknown")
TIMEZONE=$(timedatectl show --property=Timezone --value 2>/dev/null || date +%Z)
USERS_LOGGED_IN=$(who | wc -l)
LAST_BOOT_TIME=$(who -b 2>/dev/null | awk '{{print $3" "$4}}' || uptime -s 2>/dev/null || echo "unknown")
SSH_PORT=$(ss -tlnp 2>/dev/null | grep :22 | head -1 | awk '{{print $4}}' | cut -d: -f2 || echo "22")
COLLECTION_TIMESTAMP=$(date -Iseconds)

# Memory information (in GB)
MEMORY_TOTAL_GB=$(awk '/MemTotal/ {{printf "%.1f", $2/1024/1024}}' /proc/meminfo 2>/dev/null || echo "0")
MEMORY_AVAILABLE_GB=$(awk '/MemAvailable/ {{printf "%.1f", $2/1024/1024}}' /proc/meminfo 2>/dev/null || echo "0")

# Package manager detection
PACKAGE_MANAGER="unknown"
if command -v apt >/dev/null 2>&1; then
    PACKAGE_MANAGER="apt"
elif command -v yum >/dev/null 2>&1; then
    PACKAGE_MANAGER="yum"
elif command -v dnf >/dev/null 2>&1; then
    PACKAGE_MANAGER="dnf"
elif command -v pacman >/dev/null 2>&1; then
    PACKAGE_MANAGER="pacman"
elif command -v zypper >/dev/null 2>&1; then
    PACKAGE_MANAGER="zypper"
fi

# Docker detection
DOCKER_INSTALLED="No"
if command -v docker >/dev/null 2>&1; then
    DOCKER_INSTALLED="Yes"
fi

# Python version
PYTHON_VERSION=$(python3 --version 2>/dev/null | cut -d' ' -f2 || echo "Not installed")

# Firewall status
FIREWALL_STATUS="unknown"
if systemctl is-active --quiet ufw 2>/dev/null; then
    FIREWALL_STATUS="ufw-active"
elif systemctl is-active --quiet firewalld 2>/dev/null; then
    FIREWALL_STATUS="firewalld-active"
elif systemctl is-active --quiet iptables 2>/dev/null; then
    FIREWALL_STATUS="iptables-active"
else
    FIREWALL_STATUS="inactive"
fi

blue "📊 Collecting detailed information..."

if [[ "$OUTPUT_FORMAT" == "csv" ]]; then
    # CSV Output Mode
    green "📝 Generating CSV output..."
    
    # Create header if file doesn't exist
    if [[ ! -f "$CSV_FILE" ]]; then
        HEADER=""
        for col in "${{CSV_COLUMNS[@]}}"; do
            if [[ -n "$HEADER" ]]; then
                HEADER="$HEADER,"
            fi
            HEADER="$HEADER$col"
        done
        echo "$HEADER" > "$CSV_FILE"
        blue "📋 Created CSV header in $CSV_FILE"
    fi
    
    # Generate data row
    DATA=""
    for col in "${{CSV_COLUMNS[@]}}"; do
        if [[ -n "$DATA" ]]; then
            DATA="$DATA,"
        fi
        
        case "$col" in
            "hostname") DATA="$DATA$HOSTNAME" ;;
            "ip_address") DATA="$DATA$IP_ADDRESS" ;;
            "os_name") DATA="$DATA\"$OS_NAME\"" ;;
            "os_version") DATA="$DATA\"$OS_VERSION\"" ;;
            "kernel_version") DATA="$DATA$KERNEL_VERSION" ;;
            "architecture") DATA="$DATA$ARCHITECTURE" ;;
            "cpu_cores") DATA="$DATA$CPU_CORES" ;;
            "memory_total_gb") DATA="$DATA$MEMORY_TOTAL_GB" ;;
            "memory_available_gb") DATA="$DATA$MEMORY_AVAILABLE_GB" ;;
            "uptime_hours") DATA="$DATA$UPTIME_HOURS" ;;
            "load_average") DATA="$DATA\"$LOAD_AVERAGE\"" ;;
            "timezone") DATA="$DATA$TIMEZONE" ;;
            "users_logged_in") DATA="$DATA$USERS_LOGGED_IN" ;;
            "package_manager") DATA="$DATA$PACKAGE_MANAGER" ;;
            "docker_installed") DATA="$DATA$DOCKER_INSTALLED" ;;
            "python_version") DATA="$DATA\"$PYTHON_VERSION\"" ;;
            "ssh_port") DATA="$DATA$SSH_PORT" ;;
            "firewall_status") DATA="$DATA$FIREWALL_STATUS" ;;
            "last_boot_time") DATA="$DATA\"$LAST_BOOT_TIME\"" ;;
            "collection_timestamp") DATA="$DATA\"$COLLECTION_TIMESTAMP\"" ;;
            *) DATA="$DATA\"unknown\"" ;;
        esac
    done
    
    # Append data to CSV file
    echo "$DATA" >> "$CSV_FILE"
    
    green "✅ CSV data exported to $CSV_FILE"
    blue "📊 Data row added for $HOSTNAME"
    
    # Show preview if possible
    if command -v column >/dev/null 2>&1 && [[ -f "$CSV_FILE" ]]; then
        echo ""
        blue "📋 CSV Preview (last 3 rows):"
        tail -3 "$CSV_FILE" | column -t -s ','
    fi
    
else
    # JSON Output Mode (default)
    green "📝 Generating JSON output..."
    
    # Start JSON output
    echo "{{"
    echo "  \"hostname\": \"$HOSTNAME\","
    echo "  \"ip_address\": \"$IP_ADDRESS\","
    echo "  \"os_name\": \"$OS_NAME\","
    echo "  \"os_version\": \"$OS_VERSION\","
    echo "  \"kernel_version\": \"$KERNEL_VERSION\","
    echo "  \"architecture\": \"$ARCHITECTURE\","
    echo "  \"cpu_cores\": $CPU_CORES,"
    echo "  \"memory_total_gb\": $MEMORY_TOTAL_GB,"
    echo "  \"memory_available_gb\": $MEMORY_AVAILABLE_GB,"
    echo "  \"uptime_hours\": $UPTIME_HOURS,"
    echo "  \"load_average\": \"$LOAD_AVERAGE\","
    echo "  \"timezone\": \"$TIMEZONE\","
    echo "  \"users_logged_in\": $USERS_LOGGED_IN,"
    echo "  \"package_manager\": \"$PACKAGE_MANAGER\","
    echo "  \"docker_installed\": \"$DOCKER_INSTALLED\","
    echo "  \"python_version\": \"$PYTHON_VERSION\","
    echo "  \"ssh_port\": $SSH_PORT,"
    echo "  \"firewall_status\": \"$FIREWALL_STATUS\","
    echo "  \"last_boot_time\": \"$LAST_BOOT_TIME\","
    echo "  \"collection_timestamp\": \"$COLLECTION_TIMESTAMP\","

    # Disk usage information
    if [[ "$INCLUDE_DISKS" == "true" ]]; then
        echo "  \"disk_usage\": ["
        df -h --output=source,target,size,used,avail,pcent,fstype 2>/dev/null | tail -n +2 | while IFS= read -r line; do
            if [[ "$line" =~ ^/dev ]]; then
                read -r device mount total used avail percent fstype <<< "$line"
                total_gb=$(echo "$total" | sed 's/[^0-9.]//g')
                used_gb=$(echo "$used" | sed 's/[^0-9.]//g')
                avail_gb=$(echo "$avail" | sed 's/[^0-9.]//g')
                percent_num=$(echo "$percent" | sed 's/%//')
                
                echo "    {{"
                echo "      \"device\": \"$device\","
                echo "      \"mount_point\": \"$mount\","
                echo "      \"total_gb\": ${{total_gb:-0}},"
                echo "      \"used_gb\": ${{used_gb:-0}},"
                echo "      \"available_gb\": ${{avail_gb:-0}},"
                echo "      \"usage_percent\": ${{percent_num:-0}},"
                echo "      \"filesystem\": \"$fstype\""
                echo "    }},"
            fi
        done | sed '$ s/,$//'
        echo "  ],"
    else
        echo "  \"disk_usage\": [],"
    fi

    # Network interfaces
    if [[ "$INCLUDE_NETWORK" == "true" ]]; then
        echo "  \"network_interfaces\": ["
        ip -j addr show 2>/dev/null | jq -r '.[] | select(.ifname != "lo") | "\(.ifname)|\(.addr_info[0].local // "no-ip")|\(.address)|\(.operstate)"' 2>/dev/null | while IFS='|' read -r name ip mac state; do
            echo "    {{"
            echo "      \"name\": \"$name\","
            echo "      \"ip_address\": \"$ip\","
            echo "      \"mac_address\": \"$mac\","
            echo "      \"state\": \"$state\","
            echo "      \"speed\": null"
            echo "    }},"
        done | sed '$ s/,$//' 2>/dev/null || echo "    {{\"name\": \"eth0\", \"ip_address\": \"$IP_ADDRESS\", \"mac_address\": \"unknown\", \"state\": \"UP\", \"speed\": null}}"
        echo "  ],"
    else
        echo "  \"network_interfaces\": [],"
    fi

    # Running services (if requested)
    if [[ "$INCLUDE_SERVICES" == "true" ]]; then
        echo "  \"services_running\": ["
        systemctl list-units --type=service --state=running --no-pager --no-legend 2>/dev/null | head -10 | awk '{{print "\\"" $1 "\\""}}'  | paste -sd ',' || echo "\\"unknown\\""
        echo "  ],"
    else
        echo "  \"services_running\": [],"
    fi

    echo "  \"fact_collection_complete\": true"
    echo "}}"
fi

green "✅ Fact collection completed successfully!"
"#,
        output_format = output_format,
        csv_filename = csv_filename,
        csv_columns = csv_columns,
        include_services = include_services,
        include_network = include_network,
        include_disks = include_disks
    )
}

#[test]
fn collect_facts_default_json_script() {
    let script = facts_script("json", "inventory.csv", "", false, true, true);
    let expected = format!("bash -c {}", shell_escape::unix::escape(script.into()));
    assert_eq!(collect_facts::build_command(&Vec::new()).unwrap(), expected);
    // the escaper must actually have quoted the script
    assert!(collect_facts::build_command(&Vec::new()).unwrap().starts_with("bash -c '"));
}

#[test]
fn collect_facts_csv_with_columns() {
    let script = facts_script(
        "csv",
        "prod.csv",
        "\"hostname\" \"ip_address\"",
        false,
        true,
        true,
    );
    let expected = format!("bash -c {}", shell_escape::unix::escape(script.into()));
    let args = args_of(&["--csv-output", "prod.csv", "--csv-columns", "hostname, ip_address"]);
    assert_eq!(collect_facts::build_command(&args).unwrap(), expected);
}

#[test]
fn collect_facts_csv_default_columns() {
    let cols = "\"hostname\" \"ip_address\" \"os_name\" \"os_version\" \"architecture\" \"cpu_cores\" \"memory_total_gb\" \"package_manager\" \"docker_installed\"";
    let script = facts_script("csv", "inventory.csv", cols, false, true, true);
    let expected = format!("bash -c {}", shell_escape::unix::escape(script.into()));
    let args = args_of(&["--format", "csv"]);
    assert_eq!(collect_facts::build_command(&args).unwrap(), expected);
}

#[test]
fn collect_facts_toggles() {
    let script = facts_script("json", "inventory.csv", "", true, false, false);
    let expected = format!("bash -c {}", shell_escape::unix::escape(script.into()));
    let args = args_of(&["--include-services", "--no-network", "--no-disks"]);
    assert_eq!(collect_facts::build_command(&args).unwrap(), expected);
}

#[test]
fn collect_facts_rejects_bad_arguments() {
    assert_eq!(
        collect_facts::build_command(&args_of(&["--format"])).unwrap_err(),
        "--format requires a value (json|csv)"
    );
    assert_eq!(
        collect_facts::build_command(&args_of(&["--csv-output"])).unwrap_err(),
        "--csv-output requires a filename"
    );
    assert_eq!(
        collect_facts::build_command(&args_of(&["--csv-columns"])).unwrap_err(),
        "--csv-columns requires comma-separated column names"
    );
    assert_eq!(
        collect_facts::build_command(&args_of(&["--bogus"])).unwrap_err(),
        "Unknown argument: --bogus. Use --help for usage."
    );
}

#[test]
fn collect_facts_help() {
    assert!(collect_facts::help_requested(&args_of(&["--help"])));
    assert!(!collect_facts::help_requested(&args_of(&["--no-disks"])));
    // `--help` consumed as a value is not a help request
    assert!(!collect_facts::help_requested(&args_of(&["--format", "--help"])));
    assert_eq!(
        collect_facts::build_command(&args_of(&["--help"])).unwrap(),
        "echo 'Help displayed'"
    );
    assert!(collect_facts::help_text().starts_with("KRUST collect-facts module"));
}
