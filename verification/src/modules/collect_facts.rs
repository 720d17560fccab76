//! The fact-collection operation: builds a script that gathers system
//! facts on the remote host and renders them as JSON or CSV.  The finished
//! script is passed through the shell-escaping of an outside crate and
//! wrapped in a `bash -c` invocation.
use vstd::prelude::*;

use crate::text::{
    bool_str, spec_bool_str, spec_join, spec_split_commas, split_commas_trimmed, join_with,
    str_eq,
};

verus! {

// ---------------------------------------------------------------------------
// Shell escaping (outside crate)
// ---------------------------------------------------------------------------

/// A character the POSIX-shell escaper leaves bare.
pub open spec fn shell_safe_char(c: char) -> bool {
    ||| ('a' <= c && c <= 'z')
    ||| ('A' <= c && c <= 'Z')
    ||| ('0' <= c && c <= '9')
    ||| c == '-'
    ||| c == '_'
    ||| c == '='
    ||| c == '/'
    ||| c == ','
    ||| c == '.'
    ||| c == '+'
}

/// How one character is rendered inside the single-quoted form: a quote or
/// an exclamation mark is spliced out as `'\c'`, everything else is kept.
pub open spec fn spec_shell_escape_char(c: char) -> Seq<char> {
    if c == '\'' || c == '!' {
        seq!['\'', '\\', c, '\'']
    } else {
        seq![c]
    }
}

/// What `shell_escape::unix::escape` returns: a non-empty string of safe
/// characters is kept as it is; anything else is wrapped in single quotes
/// with each character rendered by `spec_shell_escape_char`.
pub open spec fn spec_shell_escape_unix(s: Seq<char>) -> Seq<char> {
    if s.len() > 0 && (forall|i: int| 0 <= i < s.len() ==> shell_safe_char(#[trigger] s[i])) {
        s
    } else {
        seq!['\''] + s.flat_map(|c: char| spec_shell_escape_char(c)) + seq!['\'']
    }
}

/// Relies on `shell_escape::unix::escape`: quoting for a POSIX shell,
/// exactly as `spec_shell_escape_unix` states it.
#[verifier::external_body]
fn shell_escape_unix(s: String) -> (r: String)
    ensures
        r@ == spec_shell_escape_unix(s@),
{
    shell_escape::unix::escape(std::borrow::Cow::Owned(s)).into_owned()
}

// ---------------------------------------------------------------------------
// Option scanning
// ---------------------------------------------------------------------------

/// The options the module understands, collected left to right.
pub struct FactsOptions {
    /// Output format: `json` unless `csv` was chosen.
    pub format: String,
    /// Target file of the CSV export, when one was named.
    pub csv_file: Option<String>,
    /// The CSV columns asked for.
    pub columns: Vec<String>,
    /// Include the running services.
    pub services: bool,
    /// Include the network interfaces.
    pub network: bool,
    /// Include the disk usage.
    pub disks: bool,
}

/// The view of the collected options.
pub struct SpecFactsOptions {
    pub format: Seq<char>,
    pub csv_file: Option<Seq<char>>,
    pub columns: Seq<Seq<char>>,
    pub services: bool,
    pub network: bool,
    pub disks: bool,
}

impl View for FactsOptions {
    type V = SpecFactsOptions;

    open spec fn view(&self) -> SpecFactsOptions {
        SpecFactsOptions {
            format: self.format@,
            csv_file: match &self.csv_file {
                Some(f) => Some(f@),
                None => None,
            },
            columns: self.columns.deep_view(),
            services: self.services,
            network: self.network,
            disks: self.disks,
        }
    }
}

/// How the argument scan ends: with collected options, with the help text
/// requested, or rejecting an argument with a diagnostic.
pub enum SpecFactsParse {
    Parsed(SpecFactsOptions),
    Help,
    Rejected(Seq<char>),
}

/// The scan itself.  A value-taking flag consumes the next argument and
/// fails without one; `--csv-output` also forces the CSV format; `--help`
/// stops the scan; an unknown argument is rejected.
pub open spec fn spec_facts_opts(
    args: Seq<Seq<char>>,
    i: int,
    st: SpecFactsOptions,
) -> SpecFactsParse
    decreases args.len() - i,
{
    if i < 0 || i >= args.len() {
        SpecFactsParse::Parsed(st)
    } else if args[i] == "--format"@ {
        if i + 1 < args.len() {
            spec_facts_opts(args, i + 2, SpecFactsOptions { format: args[i + 1], ..st })
        } else {
            SpecFactsParse::Rejected("--format requires a value (json|csv)"@)
        }
    } else if args[i] == "--csv-output"@ {
        if i + 1 < args.len() {
            spec_facts_opts(
                args,
                i + 2,
                SpecFactsOptions { format: "csv"@, csv_file: Some(args[i + 1]), ..st },
            )
        } else {
            SpecFactsParse::Rejected("--csv-output requires a filename"@)
        }
    } else if args[i] == "--csv-columns"@ {
        if i + 1 < args.len() {
            spec_facts_opts(
                args,
                i + 2,
                SpecFactsOptions { columns: st.columns + spec_split_commas(args[i + 1]), ..st },
            )
        } else {
            SpecFactsParse::Rejected("--csv-columns requires comma-separated column names"@)
        }
    } else if args[i] == "--include-services"@ {
        spec_facts_opts(args, i + 1, SpecFactsOptions { services: true, ..st })
    } else if args[i] == "--no-network"@ {
        spec_facts_opts(args, i + 1, SpecFactsOptions { network: false, ..st })
    } else if args[i] == "--no-disks"@ {
        spec_facts_opts(args, i + 1, SpecFactsOptions { disks: false, ..st })
    } else if args[i] == "--help"@ {
        SpecFactsParse::Help
    } else {
        SpecFactsParse::Rejected("Unknown argument: "@ + args[i] + ". Use --help for usage."@)
    }
}

/// The scan's starting point: JSON format, no CSV file, no columns, no
/// services, network and disks included.
pub open spec fn spec_facts_init() -> SpecFactsOptions {
    SpecFactsOptions {
        format: "json"@,
        csv_file: None,
        columns: Seq::empty(),
        services: false,
        network: true,
        disks: true,
    }
}

/// How the exec scan ends.
pub enum FactsParse {
    Parsed(FactsOptions),
    Help,
    Rejected(String),
}

impl View for FactsParse {
    type V = SpecFactsParse;

    open spec fn view(&self) -> SpecFactsParse {
        match self {
            FactsParse::Parsed(st) => SpecFactsParse::Parsed(st@),
            FactsParse::Help => SpecFactsParse::Help,
            FactsParse::Rejected(m) => SpecFactsParse::Rejected(m@),
        }
    }
}

/// Scans the arguments.
fn scan_options(args: &Vec<String>) -> (r: FactsParse)
    ensures
        r@ == spec_facts_opts(args.deep_view(), 0, spec_facts_init()),
{
    let ghost dv = args.deep_view();
    let mut st = FactsOptions {
        format: String::from_str("json"),
        csv_file: None,
        columns: Vec::new(),
        services: false,
        network: true,
        disks: true,
    };
    let mut i: usize = 0;
    proof {
        assert(st.columns.deep_view() =~= Seq::<Seq<char>>::empty());
        assert(st@ == spec_facts_init());
    }
    while i < args.len()
        invariant
            i <= args@.len(),
            dv == args.deep_view(),
            dv.len() == args@.len(),
            spec_facts_opts(dv, 0, spec_facts_init()) == spec_facts_opts(dv, i as int, st@),
        decreases args@.len() - i,
    {
        proof {
            assert(dv[i as int] == args@[i as int]@);
            if i + 1 < args@.len() {
                assert(dv[i + 1] == args@[i + 1]@);
            }
        }
        let a = args[i].as_str();
        if str_eq(a, "--format") {
            if i + 1 < args.len() {
                st.format = args[i + 1].clone();
                i += 2;
            } else {
                return FactsParse::Rejected(
                    String::from_str("--format requires a value (json|csv)"),
                );
            }
        } else if str_eq(a, "--csv-output") {
            if i + 1 < args.len() {
                st.csv_file = Some(args[i + 1].clone());
                st.format = String::from_str("csv");
                i += 2;
            } else {
                return FactsParse::Rejected(String::from_str("--csv-output requires a filename"));
            }
        } else if str_eq(a, "--csv-columns") {
            if i + 1 < args.len() {
                let ghost before = st.columns.deep_view();
                let mut extra = split_commas_trimmed(args[i + 1].as_str());
                let ghost extra_dv = extra.deep_view();
                st.columns.append(&mut extra);
                proof {
                    assert(st.columns.deep_view() =~= before + extra_dv);
                }
                i += 2;
            } else {
                return FactsParse::Rejected(
                    String::from_str("--csv-columns requires comma-separated column names"),
                );
            }
        } else if str_eq(a, "--include-services") {
            st.services = true;
            i += 1;
        } else if str_eq(a, "--no-network") {
            st.network = false;
            i += 1;
        } else if str_eq(a, "--no-disks") {
            st.disks = false;
            i += 1;
        } else if str_eq(a, "--help") {
            return FactsParse::Help;
        } else {
            let mut m = String::from_str("Unknown argument: ");
            m.append(a);
            m.append(". Use --help for usage.");
            return FactsParse::Rejected(m);
        }
    }
    FactsParse::Parsed(st)
}

// ---------------------------------------------------------------------------
// Script assembly
// ---------------------------------------------------------------------------

/// The default CSV columns, used when the CSV format is chosen and none were
/// named.
pub open spec fn spec_default_columns() -> Seq<Seq<char>> {
    seq![
        "hostname"@,
        "ip_address"@,
        "os_name"@,
        "os_version"@,
        "architecture"@,
        "cpu_cores"@,
        "memory_total_gb"@,
        "package_manager"@,
        "docker_installed"@,
    ]
}

/// A column name wrapped in double quotes.
pub open spec fn spec_quoted(c: Seq<char>) -> Seq<char> {
    seq!['"'] + c + seq!['"']
}

/// The columns as the script's array literal: each quoted, joined by single
/// spaces.
pub open spec fn spec_columns_rendered(cols: Seq<Seq<char>>) -> Seq<char> {
    spec_join(cols.map_values(|c: Seq<char>| spec_quoted(c)), " "@)
}

/// The collection script for the collected options, before escaping.
pub open spec fn spec_facts_script(st: SpecFactsOptions) -> Seq<char> {
    let columns = if st.format == "csv"@ && st.columns.len() == 0 {
        spec_default_columns()
    } else {
        st.columns
    };
    let filename = match st.csv_file {
        Some(f) => f,
        None => "inventory.csv"@,
    };
    r#"
#!/bin/bash
set -e

# Color output functions
red() { echo -e "\033[31m$1\033[0m"; }
green() { echo -e "\033[32m$1\033[0m"; }
yellow() { echo -e "\033[33m$1\033[0m"; }
blue() { echo -e "\033[34m$1\033[0m"; }

OUTPUT_FORMAT=""#@ + st.format + r#""
CSV_FILE=""#@ + filename + r#""
CSV_COLUMNS=("#@ + spec_columns_rendered(columns) + r#")
INCLUDE_SERVICES="#@
        + spec_bool_str(st.services) + r#"
INCLUDE_NETWORK="#@ + spec_bool_str(st.network) + r#"
INCLUDE_DISKS="#@
        + spec_bool_str(st.disks) + r#"

green "🔍 KRUST Fact Collection Starting..."
blue "📊 Output format: $OUTPUT_FORMAT"
if [[ "$OUTPUT_FORMAT" == "csv" ]]; then
    blue "📁 CSV file: $CSV_FILE"
    blue "📋 CSV columns: ${CSV_COLUMNS[*]}"
fi

# Basic system information
HOSTNAME=$(hostname -f 2>/dev/null || hostname)
IP_ADDRESS=$(ip route get 1.1.1.1 2>/dev/null | grep -oP 'src \K\S+' || echo "unknown")
OS_NAME=$(grep '^NAME=' /etc/os-release 2>/dev/null | cut -d'"' -f2 || uname -s)
OS_VERSION=$(grep '^VERSION=' /etc/os-release 2>/dev/null | cut -d'"' -f2 || uname -r)
KERNEL_VERSION=$(uname -r)
ARCHITECTURE=$(uname -m)
CPU_CORES=$(nproc)
UPTIME_HOURS=$(awk '{printf "%.1f", $1/3600}' /proc/uptime 2>/dev/null || echo "0")
LOAD_AVERAGE=$(cat /proc/loadavg 2>/dev/null | cut -d' ' -f1-3 || echo "unknown")
TIMEZONE=$(timedatectl show --property=Timezone --value 2>/dev/null || date +%Z)
USERS_LOGGED_IN=$(who | wc -l)
LAST_BOOT_TIME=$(who -b 2>/dev/null | awk '{print $3" "$4}' || uptime -s 2>/dev/null || echo "unknown")
SSH_PORT=$(ss -tlnp 2>/dev/null | grep :22 | head -1 | awk '{print $4}' | cut -d: -f2 || echo "22")
COLLECTION_TIMESTAMP=$(date -Iseconds)

# Memory information (in GB)
MEMORY_TOTAL_GB=$(awk '/MemTotal/ {printf "%.1f", $2/1024/1024}' /proc/meminfo 2>/dev/null || echo "0")
MEMORY_AVAILABLE_GB=$(awk '/MemAvailable/ {printf "%.1f", $2/1024/1024}' /proc/meminfo 2>/dev/null || echo "0")

# Package manager detection
PACKAGE_MANAGER="unknown"
if command -v apt >/dev/null 2>&1; then
    PACKAGE_MANAGER="apt"
elif command -v yum >/dev/null 2>&1; then
    PACKAGE_MANAGER="yum"
elif command -v dnf >/dev/null 2>&1; then
    PACKAGE_MANAGER="dnf"
elif command -v pacman >/dev/null 2>&1; then
    PACKAGE_MANAGER="pacman"
elif command -v zypper >/dev/null 2>&1; then
    PACKAGE_MANAGER="zypper"
fi

# Docker detection
DOCKER_INSTALLED="No"
if command -v docker >/dev/null 2>&1; then
    DOCKER_INSTALLED="Yes"
fi

# Python version
PYTHON_VERSION=$(python3 --version 2>/dev/null | cut -d' ' -f2 || echo "Not installed")

# Firewall status
FIREWALL_STATUS="unknown"
if systemctl is-active --quiet ufw 2>/dev/null; then
    FIREWALL_STATUS="ufw-active"
elif systemctl is-active --quiet firewalld 2>/dev/null; then
    FIREWALL_STATUS="firewalld-active"
elif systemctl is-active --quiet iptables 2>/dev/null; then
    FIREWALL_STATUS="iptables-active"
else
    FIREWALL_STATUS="inactive"
fi

blue "📊 Collecting detailed information..."

if [[ "$OUTPUT_FORMAT" == "csv" ]]; then
    # CSV Output Mode
    green "📝 Generating CSV output..."
    
    # Create header if file doesn't exist
    if [[ ! -f "$CSV_FILE" ]]; then
        HEADER=""
        for col in "${CSV_COLUMNS[@]}"; do
            if [[ -n "$HEADER" ]]; then
                HEADER="$HEADER,"
            fi
            HEADER="$HEADER$col"
        done
        echo "$HEADER" > "$CSV_FILE"
        blue "📋 Created CSV header in $CSV_FILE"
    fi
    
    # Generate data row
    DATA=""
    for col in "${CSV_COLUMNS[@]}"; do
        if [[ -n "$DATA" ]]; then
            DATA="$DATA,"
        fi
        
        case "$col" in
            "hostname") DATA="$DATA$HOSTNAME" ;;
            "ip_address") DATA="$DATA$IP_ADDRESS" ;;
            "os_name") DATA="$DATA\"$OS_NAME\"" ;;
            "os_version") DATA="$DATA\"$OS_VERSION\"" ;;
            "kernel_version") DATA="$DATA$KERNEL_VERSION" ;;
            "architecture") DATA="$DATA$ARCHITECTURE" ;;
            "cpu_cores") DATA="$DATA$CPU_CORES" ;;
            "memory_total_gb") DATA="$DATA$MEMORY_TOTAL_GB" ;;
            "memory_available_gb") DATA="$DATA$MEMORY_AVAILABLE_GB" ;;
            "uptime_hours") DATA="$DATA$UPTIME_HOURS" ;;
            "load_average") DATA="$DATA\"$LOAD_AVERAGE\"" ;;
            "timezone") DATA="$DATA$TIMEZONE" ;;
            "users_logged_in") DATA="$DATA$USERS_LOGGED_IN" ;;
            "package_manager") DATA="$DATA$PACKAGE_MANAGER" ;;
            "docker_installed") DATA="$DATA$DOCKER_INSTALLED" ;;
            "python_version") DATA="$DATA\"$PYTHON_VERSION\"" ;;
            "ssh_port") DATA="$DATA$SSH_PORT" ;;
            "firewall_status") DATA="$DATA$FIREWALL_STATUS" ;;
            "last_boot_time") DATA="$DATA\"$LAST_BOOT_TIME\"" ;;
            "collection_timestamp") DATA="$DATA\"$COLLECTION_TIMESTAMP\"" ;;
            *) DATA="$DATA\"unknown\"" ;;
        esac
    done
    
    # Append data to CSV file
    echo "$DATA" >> "$CSV_FILE"
    
    green "✅ CSV data exported to $CSV_FILE"
    blue "📊 Data row added for $HOSTNAME"
    
    # Show preview if possible
    if command -v column >/dev/null 2>&1 && [[ -f "$CSV_FILE" ]]; then
        echo ""
        blue "📋 CSV Preview (last 3 rows):"
        tail -3 "$CSV_FILE" | column -t -s ','
    fi
    
else
    # JSON Output Mode (default)
    green "📝 Generating JSON output..."
    
    # Start JSON output
    echo "{"
    echo "  \"hostname\": \"$HOSTNAME\","
    echo "  \"ip_address\": \"$IP_ADDRESS\","
    echo "  \"os_name\": \"$OS_NAME\","
    echo "  \"os_version\": \"$OS_VERSION\","
    echo "  \"kernel_version\": \"$KERNEL_VERSION\","
    echo "  \"architecture\": \"$ARCHITECTURE\","
    echo "  \"cpu_cores\": $CPU_CORES,"
    echo "  \"memory_total_gb\": $MEMORY_TOTAL_GB,"
    echo "  \"memory_available_gb\": $MEMORY_AVAILABLE_GB,"
    echo "  \"uptime_hours\": $UPTIME_HOURS,"
    echo "  \"load_average\": \"$LOAD_AVERAGE\","
    echo "  \"timezone\": \"$TIMEZONE\","
    echo "  \"users_logged_in\": $USERS_LOGGED_IN,"
    echo "  \"package_manager\": \"$PACKAGE_MANAGER\","
    echo "  \"docker_installed\": \"$DOCKER_INSTALLED\","
    echo "  \"python_version\": \"$PYTHON_VERSION\","
    echo "  \"ssh_port\": $SSH_PORT,"
    echo "  \"firewall_status\": \"$FIREWALL_STATUS\","
    echo "  \"last_boot_time\": \"$LAST_BOOT_TIME\","
    echo "  \"collection_timestamp\": \"$COLLECTION_TIMESTAMP\","

    # Disk usage information
    if [[ "$INCLUDE_DISKS" == "true" ]]; then
        echo "  \"disk_usage\": ["
        df -h --output=source,target,size,used,avail,pcent,fstype 2>/dev/null | tail -n +2 | while IFS= read -r line; do
            if [[ "$line" =~ ^/dev ]]; then
                read -r device mount total used avail percent fstype <<< "$line"
                total_gb=$(echo "$total" | sed 's/[^0-9.]//g')
                used_gb=$(echo "$used" | sed 's/[^0-9.]//g')
                avail_gb=$(echo "$avail" | sed 's/[^0-9.]//g')
                percent_num=$(echo "$percent" | sed 's/%//')
                
                echo "    {"
                echo "      \"device\": \"$device\","
                echo "      \"mount_point\": \"$mount\","
                echo "      \"total_gb\": ${total_gb:-0},"
                echo "      \"used_gb\": ${used_gb:-0},"
                echo "      \"available_gb\": ${avail_gb:-0},"
                echo "      \"usage_percent\": ${percent_num:-0},"
                echo "      \"filesystem\": \"$fstype\""
                echo "    },"
            fi
        done | sed '$ s/,$//'
        echo "  ],"
    else
        echo "  \"disk_usage\": [],"
    fi

    # Network interfaces
    if [[ "$INCLUDE_NETWORK" == "true" ]]; then
        echo "  \"network_interfaces\": ["
        ip -j addr show 2>/dev/null | jq -r '.[] | select(.ifname != "lo") | "\(.ifname)|\(.addr_info[0].local // "no-ip")|\(.address)|\(.operstate)"' 2>/dev/null | while IFS='|' read -r name ip mac state; do
            echo "    {"
            echo "      \"name\": \"$name\","
            echo "      \"ip_address\": \"$ip\","
            echo "      \"mac_address\": \"$mac\","
            echo "      \"state\": \"$state\","
            echo "      \"speed\": null"
            echo "    },"
        done | sed '$ s/,$//' 2>/dev/null || echo "    {\"name\": \"eth0\", \"ip_address\": \"$IP_ADDRESS\", \"mac_address\": \"unknown\", \"state\": \"UP\", \"speed\": null}"
        echo "  ],"
    else
        echo "  \"network_interfaces\": [],"
    fi

    # Running services (if requested)
    if [[ "$INCLUDE_SERVICES" == "true" ]]; then
        echo "  \"services_running\": ["
        systemctl list-units --type=service --state=running --no-pager --no-legend 2>/dev/null | head -10 | awk '{print "\\"" $1 "\\""}'  | paste -sd ',' || echo "\\"unknown\\""
        echo "  ],"
    else
        echo "  \"services_running\": [],"
    fi

    echo "  \"fact_collection_complete\": true"
    echo "}"
fi

green "✅ Fact collection completed successfully!"
"#@
}

/// Renders the columns as the script's array literal.
fn render_columns(cols: &Vec<String>) -> (r: String)
    ensures
        r@ == spec_columns_rendered(cols.deep_view()),
{
    let ghost dv = cols.deep_view();
    let mut quoted: Vec<String> = Vec::new();
    let mut i: usize = 0;
    proof {
        assert(quoted.deep_view() =~= dv.take(0).map_values(|c: Seq<char>| spec_quoted(c)));
    }
    while i < cols.len()
        invariant
            i <= cols@.len(),
            dv == cols.deep_view(),
            dv.len() == cols@.len(),
            quoted.deep_view() == dv.take(i as int).map_values(|c: Seq<char>| spec_quoted(c)),
        decreases cols@.len() - i,
    {
        let ghost before = quoted.deep_view();
        let mut q = String::from_str("\"");
        q.append(cols[i].as_str());
        q.append("\"");
        quoted.push(q);
        proof {
            reveal_strlit("\"");
            assert(dv[i as int] == cols@[i as int]@);
            assert(q@ =~= spec_quoted(dv[i as int]));
            assert(quoted.deep_view() =~= before.push(q@));
            assert(dv.take(i + 1).map_values(|c: Seq<char>| spec_quoted(c)) =~= before.push(q@));
        }
        i += 1;
    }
    proof {
        assert(dv.take(cols@.len() as int) =~= dv);
    }
    join_with(&quoted, " ")
}

/// The help text the module prints when `--help` is among the arguments.
pub fn help_text() -> (r: String)
    ensures
        r@ == r#"KRUST collect-facts module
Usage: krust collect-facts [OPTIONS]

Options:
    --format FORMAT         Output format: json, csv (default: json)
    --csv-output FILE       Export to CSV file (automatically sets format to csv)
    --csv-columns COLS      Specific CSV columns (comma-separated)
    --include-services      Include running services list
    --no-network           Skip network interface collection
    --no-disks             Skip disk usage collection
    --help                 Show this help

Available CSV columns:
    hostname,ip_address,os_name,os_version,kernel_version,architecture,
    cpu_cores,memory_total_gb,memory_available_gb,uptime_hours,load_average,
    timezone,users_logged_in,package_manager,docker_installed,python_version,
    ssh_port,firewall_status,last_boot_time,collection_timestamp

Examples:
    krust --hosts servers collect-facts
    krust --hosts all collect-facts --csv-output inventory.csv
    krust --hosts prod collect-facts --csv-columns hostname,ip_address,os_name --csv-output prod.csv
    krust --hosts all collect-facts --include-services --format json"#@,
{
    String::from_str(r#"KRUST collect-facts module
Usage: krust collect-facts [OPTIONS]

Options:
    --format FORMAT         Output format: json, csv (default: json)
    --csv-output FILE       Export to CSV file (automatically sets format to csv)
    --csv-columns COLS      Specific CSV columns (comma-separated)
    --include-services      Include running services list
    --no-network           Skip network interface collection
    --no-disks             Skip disk usage collection
    --help                 Show this help

Available CSV columns:
    hostname,ip_address,os_name,os_version,kernel_version,architecture,
    cpu_cores,memory_total_gb,memory_available_gb,uptime_hours,load_average,
    timezone,users_logged_in,package_manager,docker_installed,python_version,
    ssh_port,firewall_status,last_boot_time,collection_timestamp

Examples:
    krust --hosts servers collect-facts
    krust --hosts all collect-facts --csv-output inventory.csv
    krust --hosts prod collect-facts --csv-columns hostname,ip_address,os_name --csv-output prod.csv
    krust --hosts all collect-facts --include-services --format json"#)
}

/// Whether the arguments ask for the help text; the caller prints it.
pub fn help_requested(args: &Vec<String>) -> (r: bool)
    ensures
        r == (spec_facts_opts(args.deep_view(), 0, spec_facts_init()) is Help),
{
    match scan_options(args) {
        FactsParse::Help => true,
        _ => false,
    }
}

/// Builds the fact-collection command for `args`: the collection script for
/// the chosen options, shell-escaped and wrapped in `bash -c`.  When help
/// was asked for, the command only echoes that it was displayed.
pub fn build_command(args: &Vec<String>) -> (r: Result<String, String>)
    ensures
        match spec_facts_opts(args.deep_view(), 0, spec_facts_init()) {
            SpecFactsParse::Parsed(st) => r matches Ok(s) && s@ == "bash -c "@
                + spec_shell_escape_unix(spec_facts_script(st)),
            SpecFactsParse::Help => r matches Ok(s) && s@ == "echo 'Help displayed'"@,
            SpecFactsParse::Rejected(m) => r matches Err(e) && e@ == m,
        },
{
    match scan_options(args) {
        FactsParse::Parsed(st) => {
            let columns_empty = st.columns.len() == 0;
            let use_default = str_eq(st.format.as_str(), "csv") && columns_empty;
            let rendered = if use_default {
                let mut defaults: Vec<String> = Vec::new();
                defaults.push(String::from_str("hostname"));
                defaults.push(String::from_str("ip_address"));
                defaults.push(String::from_str("os_name"));
                defaults.push(String::from_str("os_version"));
                defaults.push(String::from_str("architecture"));
                defaults.push(String::from_str("cpu_cores"));
                defaults.push(String::from_str("memory_total_gb"));
                defaults.push(String::from_str("package_manager"));
                defaults.push(String::from_str("docker_installed"));
                proof {
                    assert(defaults.deep_view() =~= spec_default_columns());
                }
                render_columns(&defaults)
            } else {
                render_columns(&st.columns)
            };
            let mut script = String::from_str(r#"
#!/bin/bash
set -e

# Color output functions
red() { echo -e "\033[31m$1\033[0m"; }
green() { echo -e "\033[32m$1\033[0m"; }
yellow() { echo -e "\033[33m$1\033[0m"; }
blue() { echo -e "\033[34m$1\033[0m"; }

OUTPUT_FORMAT=""#);
            script.append(st.format.as_str());
            script.append(r#""
CSV_FILE=""#);
            match &st.csv_file {
                Some(f) => script.append(f.as_str()),
                None => script.append("inventory.csv"),
            }
            script.append(r#""
CSV_COLUMNS=("#);
            script.append(rendered.as_str());
            script.append(r#")
INCLUDE_SERVICES="#);
            script.append(bool_str(st.services));
            script.append(r#"
INCLUDE_NETWORK="#);
            script.append(bool_str(st.network));
            script.append(r#"
INCLUDE_DISKS="#);
            script.append(bool_str(st.disks));
            script.append(r#"

green "🔍 KRUST Fact Collection Starting..."
blue "📊 Output format: $OUTPUT_FORMAT"
if [[ "$OUTPUT_FORMAT" == "csv" ]]; then
    blue "📁 CSV file: $CSV_FILE"
    blue "📋 CSV columns: ${CSV_COLUMNS[*]}"
fi

# Basic system information
HOSTNAME=$(hostname -f 2>/dev/null || hostname)
IP_ADDRESS=$(ip route get 1.1.1.1 2>/dev/null | grep -oP 'src \K\S+' || echo "unknown")
OS_NAME=$(grep '^NAME=' /etc/os-release 2>/dev/null | cut -d'"' -f2 || uname -s)
OS_VERSION=$(grep '^VERSION=' /etc/os-release 2>/dev/null | cut -d'"' -f2 || uname -r)
KERNEL_VERSION=$(uname -r)
ARCHITECTURE=$(uname -m)
CPU_CORES=$(nproc)
UPTIME_HOURS=$(awk '{printf "%.1f", $1/3600}' /proc/uptime 2>/dev/null || echo "0")
LOAD_AVERAGE=$(cat /proc/loadavg 2>/dev/null | cut -d' ' -f1-3 || echo "unknown")
TIMEZONE=$(timedatectl show --property=Timezone --value 2>/dev/null || date +%Z)
USERS_LOGGED_IN=$(who | wc -l)
LAST_BOOT_TIME=$(who -b 2>/dev/null | awk '{print $3" "$4}' || uptime -s 2>/dev/null || echo "unknown")
SSH_PORT=$(ss -tlnp 2>/dev/null | grep :22 | head -1 | awk '{print $4}' | cut -d: -f2 || echo "22")
COLLECTION_TIMESTAMP=$(date -Iseconds)

# Memory information (in GB)
MEMORY_TOTAL_GB=$(awk '/MemTotal/ {printf "%.1f", $2/1024/1024}' /proc/meminfo 2>/dev/null || echo "0")
MEMORY_AVAILABLE_GB=$(awk '/MemAvailable/ {printf "%.1f", $2/1024/1024}' /proc/meminfo 2>/dev/null || echo "0")

# Package manager detection
PACKAGE_MANAGER="unknown"
if command -v apt >/dev/null 2>&1; then
    PACKAGE_MANAGER="apt"
elif command -v yum >/dev/null 2>&1; then
    PACKAGE_MANAGER="yum"
elif command -v dnf >/dev/null 2>&1; then
    PACKAGE_MANAGER="dnf"
elif command -v pacman >/dev/null 2>&1; then
    PACKAGE_MANAGER="pacman"
elif command -v zypper >/dev/null 2>&1; then
    PACKAGE_MANAGER="zypper"
fi

# Docker detection
DOCKER_INSTALLED="No"
if command -v docker >/dev/null 2>&1; then
    DOCKER_INSTALLED="Yes"
fi

# Python version
PYTHON_VERSION=$(python3 --version 2>/dev/null | cut -d' ' -f2 || echo "Not installed")

# Firewall status
FIREWALL_STATUS="unknown"
if systemctl is-active --quiet ufw 2>/dev/null; then
    FIREWALL_STATUS="ufw-active"
elif systemctl is-active --quiet firewalld 2>/dev/null; then
    FIREWALL_STATUS="firewalld-active"
elif systemctl is-active --quiet iptables 2>/dev/null; then
    FIREWALL_STATUS="iptables-active"
else
    FIREWALL_STATUS="inactive"
fi

blue "📊 Collecting detailed information..."

if [[ "$OUTPUT_FORMAT" == "csv" ]]; then
    # CSV Output Mode
    green "📝 Generating CSV output..."
    
    # Create header if file doesn't exist
    if [[ ! -f "$CSV_FILE" ]]; then
        HEADER=""
        for col in "${CSV_COLUMNS[@]}"; do
            if [[ -n "$HEADER" ]]; then
                HEADER="$HEADER,"
            fi
            HEADER="$HEADER$col"
        done
        echo "$HEADER" > "$CSV_FILE"
        blue "📋 Created CSV header in $CSV_FILE"
    fi
    
    # Generate data row
    DATA=""
    for col in "${CSV_COLUMNS[@]}"; do
        if [[ -n "$DATA" ]]; then
            DATA="$DATA,"
        fi
        
        case "$col" in
            "hostname") DATA="$DATA$HOSTNAME" ;;
            "ip_address") DATA="$DATA$IP_ADDRESS" ;;
            "os_name") DATA="$DATA\"$OS_NAME\"" ;;
            "os_version") DATA="$DATA\"$OS_VERSION\"" ;;
            "kernel_version") DATA="$DATA$KERNEL_VERSION" ;;
            "architecture") DATA="$DATA$ARCHITECTURE" ;;
            "cpu_cores") DATA="$DATA$CPU_CORES" ;;
            "memory_total_gb") DATA="$DATA$MEMORY_TOTAL_GB" ;;
            "memory_available_gb") DATA="$DATA$MEMORY_AVAILABLE_GB" ;;
            "uptime_hours") DATA="$DATA$UPTIME_HOURS" ;;
            "load_average") DATA="$DATA\"$LOAD_AVERAGE\"" ;;
            "timezone") DATA="$DATA$TIMEZONE" ;;
            "users_logged_in") DATA="$DATA$USERS_LOGGED_IN" ;;
            "package_manager") DATA="$DATA$PACKAGE_MANAGER" ;;
            "docker_installed") DATA="$DATA$DOCKER_INSTALLED" ;;
            "python_version") DATA="$DATA\"$PYTHON_VERSION\"" ;;
            "ssh_port") DATA="$DATA$SSH_PORT" ;;
            "firewall_status") DATA="$DATA$FIREWALL_STATUS" ;;
            "last_boot_time") DATA="$DATA\"$LAST_BOOT_TIME\"" ;;
            "collection_timestamp") DATA="$DATA\"$COLLECTION_TIMESTAMP\"" ;;
            *) DATA="$DATA\"unknown\"" ;;
        esac
    done
    
    # Append data to CSV file
    echo "$DATA" >> "$CSV_FILE"
    
    green "✅ CSV data exported to $CSV_FILE"
    blue "📊 Data row added for $HOSTNAME"
    
    # Show preview if possible
    if command -v column >/dev/null 2>&1 && [[ -f "$CSV_FILE" ]]; then
        echo ""
        blue "📋 CSV Preview (last 3 rows):"
        tail -3 "$CSV_FILE" | column -t -s ','
    fi
    
else
    # JSON Output Mode (default)
    green "📝 Generating JSON output..."
    
    # Start JSON output
    echo "{"
    echo "  \"hostname\": \"$HOSTNAME\","
    echo "  \"ip_address\": \"$IP_ADDRESS\","
    echo "  \"os_name\": \"$OS_NAME\","
    echo "  \"os_version\": \"$OS_VERSION\","
    echo "  \"kernel_version\": \"$KERNEL_VERSION\","
    echo "  \"architecture\": \"$ARCHITECTURE\","
    echo "  \"cpu_cores\": $CPU_CORES,"
    echo "  \"memory_total_gb\": $MEMORY_TOTAL_GB,"
    echo "  \"memory_available_gb\": $MEMORY_AVAILABLE_GB,"
    echo "  \"uptime_hours\": $UPTIME_HOURS,"
    echo "  \"load_average\": \"$LOAD_AVERAGE\","
    echo "  \"timezone\": \"$TIMEZONE\","
    echo "  \"users_logged_in\": $USERS_LOGGED_IN,"
    echo "  \"package_manager\": \"$PACKAGE_MANAGER\","
    echo "  \"docker_installed\": \"$DOCKER_INSTALLED\","
    echo "  \"python_version\": \"$PYTHON_VERSION\","
    echo "  \"ssh_port\": $SSH_PORT,"
    echo "  \"firewall_status\": \"$FIREWALL_STATUS\","
    echo "  \"last_boot_time\": \"$LAST_BOOT_TIME\","
    echo "  \"collection_timestamp\": \"$COLLECTION_TIMESTAMP\","

    # Disk usage information
    if [[ "$INCLUDE_DISKS" == "true" ]]; then
        echo "  \"disk_usage\": ["
        df -h --output=source,target,size,used,avail,pcent,fstype 2>/dev/null | tail -n +2 | while IFS= read -r line; do
            if [[ "$line" =~ ^/dev ]]; then
                read -r device mount total used avail percent fstype <<< "$line"
                total_gb=$(echo "$total" | sed 's/[^0-9.]//g')
                used_gb=$(echo "$used" | sed 's/[^0-9.]//g')
                avail_gb=$(echo "$avail" | sed 's/[^0-9.]//g')
                percent_num=$(echo "$percent" | sed 's/%//')
                
                echo "    {"
                echo "      \"device\": \"$device\","
                echo "      \"mount_point\": \"$mount\","
                echo "      \"total_gb\": ${total_gb:-0},"
                echo "      \"used_gb\": ${used_gb:-0},"
                echo "      \"available_gb\": ${avail_gb:-0},"
                echo "      \"usage_percent\": ${percent_num:-0},"
                echo "      \"filesystem\": \"$fstype\""
                echo "    },"
            fi
        done | sed '$ s/,$//'
        echo "  ],"
    else
        echo "  \"disk_usage\": [],"
    fi

    # Network interfaces
    if [[ "$INCLUDE_NETWORK" == "true" ]]; then
        echo "  \"network_interfaces\": ["
        ip -j addr show 2>/dev/null | jq -r '.[] | select(.ifname != "lo") | "\(.ifname)|\(.addr_info[0].local // "no-ip")|\(.address)|\(.operstate)"' 2>/dev/null | while IFS='|' read -r name ip mac state; do
            echo "    {"
            echo "      \"name\": \"$name\","
            echo "      \"ip_address\": \"$ip\","
            echo "      \"mac_address\": \"$mac\","
            echo "      \"state\": \"$state\","
            echo "      \"speed\": null"
            echo "    },"
        done | sed '$ s/,$//' 2>/dev/null || echo "    {\"name\": \"eth0\", \"ip_address\": \"$IP_ADDRESS\", \"mac_address\": \"unknown\", \"state\": \"UP\", \"speed\": null}"
        echo "  ],"
    else
        echo "  \"network_interfaces\": [],"
    fi

    # Running services (if requested)
    if [[ "$INCLUDE_SERVICES" == "true" ]]; then
        echo "  \"services_running\": ["
        systemctl list-units --type=service --state=running --no-pager --no-legend 2>/dev/null | head -10 | awk '{print "\\"" $1 "\\""}'  | paste -sd ',' || echo "\\"unknown\\""
        echo "  ],"
    else
        echo "  \"services_running\": [],"
    fi

    echo "  \"fact_collection_complete\": true"
    echo "}"
fi

green "✅ Fact collection completed successfully!"
"#);
            proof {
                assert(script@ =~= spec_facts_script(st@));
            }
            let escaped = shell_escape_unix(script);
            let mut command = String::from_str("bash -c ");
            command.append(escaped.as_str());
            Ok(command)
        },
        FactsParse::Help => Ok(String::from_str("echo 'Help displayed'")),
        FactsParse::Rejected(m) => Err(m),
    }
}

} // verus!
