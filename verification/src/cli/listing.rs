//! Tables of machines, images and containers.
use vstd::prelude::*;
use vstd::string::*;

use crate::cli::{
    format_bytes, left_aligned, pad_left, pad_right, repeat, repeated, right_aligned, size_text,
    truncate, truncate_id, truncated, truncation_respects_width, COMMAND_WIDTH, CONTAINER_ID_WIDTH,
    IMAGE_NAME_WIDTH,
};
use crate::config::{RecordState, VmRecord, VmRecordView};
use crate::data::storage::{DEFAULT_OVERLAY_SIZE_GIB, DEFAULT_STORAGE_SIZE_GIB};
use crate::lists::{join, join_text};
use crate::text::{decimal, decimal_text, int_text, same, signed_text};

verus! {

// ---------------------------------------------------------------------------
// Lists of lines
// ---------------------------------------------------------------------------

/// Lines that are built one after the other.
pub(crate) fn add_line(lines: &mut Vec<String>, line: String)
    ensures
        final(lines).deep_view() == old(lines).deep_view().push(line@),
{
    lines.push(line);
    proof {
        assert(lines.deep_view() =~= old(lines).deep_view().push(line@));
    }
}

pub(crate) fn no_lines() -> (r: Vec<String>)
    ensures
        r.deep_view() == Seq::<Seq<char>>::empty(),
{
    let r: Vec<String> = Vec::new();
    proof {
        assert(r.deep_view() =~= Seq::empty());
    }
    r
}

// ---------------------------------------------------------------------------
// Machines
// ---------------------------------------------------------------------------

/// One line of the machine table.
pub open spec fn machine_columns(
    name: Seq<char>,
    state: Seq<char>,
    cpus: Seq<char>,
    memory: Seq<char>,
    mounts: Seq<char>,
    ports: Seq<char>,
    storage: Seq<char>,
    overlay: Seq<char>,
) -> Seq<char> {
    pad_right(name, 20) + " "@ + pad_right(state, 12) + " "@ + pad_left(cpus, 5) + " "@ + pad_left(
        memory,
        10,
    ) + " "@ + pad_left(mounts, 7) + " "@ + pad_left(ports, 7) + " "@ + pad_left(storage, 8) + " "@
        + pad_left(overlay, 8)
}

fn machine_line(
    name: &str,
    state: &str,
    cpus: &str,
    memory: &str,
    mounts: &str,
    ports: &str,
    storage: &str,
    overlay: &str,
) -> (r: String)
    ensures
        r@ == machine_columns(name@, state@, cpus@, memory@, mounts@, ports@, storage@, overlay@),
{
    left_aligned(name, 20).concat(" ").concat(left_aligned(state, 12).as_str()).concat(" ").concat(
        right_aligned(cpus, 5).as_str(),
    ).concat(" ").concat(right_aligned(memory, 10).as_str()).concat(" ").concat(
        right_aligned(mounts, 7).as_str(),
    ).concat(" ").concat(right_aligned(ports, 7).as_str()).concat(" ").concat(
        right_aligned(storage, 8).as_str(),
    ).concat(" ").concat(right_aligned(overlay, 8).as_str())
}

/// The state of a machine as it is listed: ephemeral machines are marked.
pub open spec fn listed_state(state: RecordState, ephemeral: bool) -> Seq<char> {
    if ephemeral {
        state.word() + " (eph)"@
    } else {
        state.word()
    }
}

/// A disk size as it is listed.
pub open spec fn listed_size(size: Option<u64>, default: u64) -> Seq<char> {
    decimal(match size {
        Some(s) => s as nat,
        None => default as nat,
    }) + " GiB"@
}

/// The line of one machine.
pub open spec fn machine_row(name: Seq<char>, r: VmRecordView, state: RecordState) -> Seq<char> {
    machine_columns(
        truncated(name, 18),
        listed_state(state, r.ephemeral),
        decimal(r.cpus as nat),
        decimal(r.mem as nat) + " MiB"@,
        decimal(r.mounts.len()),
        decimal(r.ports.len()),
        listed_size(r.storage_gb, DEFAULT_STORAGE_SIZE_GIB),
        listed_size(r.overlay_gb, DEFAULT_OVERLAY_SIZE_GIB),
    )
}

fn size_cell(size: Option<u64>, default: u64) -> (r: String)
    ensures
        r@ == listed_size(size, default),
{
    let shown: u64 = match size {
        Some(s) => s,
        None => default,
    };
    decimal_text(shown).concat(" GiB")
}

/// The lines that head the machine table.
pub fn machine_header() -> (r: (String, String))
    ensures
        r.0@ == machine_columns(
            "NAME"@,
            "STATE"@,
            "CPUS"@,
            "MEMORY"@,
            "MOUNTS"@,
            "PORTS"@,
            "STORAGE"@,
            "OVERLAY"@,
        ),
        r.1@ == repeated('-', 88),
{
    (
        machine_line(
            "NAME",
            "STATE",
            "CPUS",
            "MEMORY",
            "MOUNTS",
            "PORTS",
            "STORAGE",
            "OVERLAY",
        ),
        repeat('-', 88),
    )
}

/// The line of one machine.
pub fn machine_table_row(name: &str, record: &VmRecord, state: RecordState) -> (r: String)
    ensures
        r@ == machine_row(name@, record@, state),
{
    let state_text = if record.ephemeral {
        state.to_string().concat(" (eph)")
    } else {
        state.to_string()
    };
    machine_line(
        truncate(name, 18).as_str(),
        state_text.as_str(),
        decimal_text(record.cpus as u64).as_str(),
        decimal_text(record.mem as u64).concat(" MiB").as_str(),
        decimal_text(record.mounts.len() as u64).as_str(),
        decimal_text(record.ports.len() as u64).as_str(),
        size_cell(record.storage_gb, DEFAULT_STORAGE_SIZE_GIB).as_str(),
        size_cell(record.overlay_gb, DEFAULT_OVERLAY_SIZE_GIB).as_str(),
    )
}

/// A line of the details of a mount.
pub open spec fn mount_detail(m: (Seq<char>, Seq<char>, bool)) -> Seq<char> {
    "  Mount: "@ + m.0 + " -> "@ + m.1 + (if m.2 {
        " (ro)"@
    } else {
        ""@
    })
}

/// A line of the details of a port mapping.
pub open spec fn port_detail(p: (u16, u16)) -> Seq<char> {
    "  Port: "@ + decimal(p.0 as nat) + " -> "@ + decimal(p.1 as nat)
}

/// A line for each item of a list.
pub open spec fn each_line<T>(items: Seq<T>, line: spec_fn(T) -> Seq<char>) -> Seq<Seq<char>> {
    Seq::new(items.len(), |i: int| line(items[i]))
}

/// A list of one line, or none.
pub open spec fn line_if(on: bool, line: Seq<char>) -> Seq<Seq<char>> {
    if on {
        seq![line]
    } else {
        Seq::empty()
    }
}

/// The details of a machine: its process, mounts, ports, network, init commands,
/// variables, working directory and creation time, and an empty line.
pub open spec fn machine_details(r: VmRecordView) -> Seq<Seq<char>> {
    line_if(
        r.pid is Some,
        "  PID: "@ + int_text(match r.pid {
            Some(p) => p as int,
            None => 0,
        }),
    ) + each_line(r.mounts, |m: (Seq<char>, Seq<char>, bool)| mount_detail(m)) + each_line(
        r.ports,
        |p: (u16, u16)| port_detail(p),
    ) + line_if(r.network, "  Network: enabled"@) + each_line(
        r.init,
        |c: Seq<char>| "  Init: "@ + c,
    ) + each_line(r.env, |e: (Seq<char>, Seq<char>)| "  Env: "@ + e.0 + "="@ + e.1) + line_if(
        r.workdir is Some,
        "  Workdir: "@ + (match r.workdir {
            Some(w) => w,
            None => Seq::empty(),
        }),
    ) + seq!["  Created: "@ + r.created_at, ""@]
}

fn mount_lines(mounts: &Vec<(String, String, bool)>) -> (r: Vec<String>)
    ensures
        r.deep_view() == each_line(
            mounts.deep_view(),
            |m: (Seq<char>, Seq<char>, bool)| mount_detail(m),
        ),
{
    let mut r: Vec<String> = Vec::new();
    for i in 0..mounts.len()
        invariant
            r@.len() == i,
            forall|j: int| 0 <= j < i ==> (#[trigger] r@[j])@ == mount_detail(mounts@[j].deep_view()),
    {
        let ro = if mounts[i].2 {
            " (ro)"
        } else {
            ""
        };
        r.push(
            String::from_str("  Mount: ").concat(mounts[i].0.as_str()).concat(" -> ").concat(
                mounts[i].1.as_str(),
            ).concat(ro),
        );
    }
    proof {
        assert(r.deep_view() =~= each_line(
            mounts.deep_view(),
            |m: (Seq<char>, Seq<char>, bool)| mount_detail(m),
        ));
    }
    r
}

fn port_lines(ports: &Vec<(u16, u16)>) -> (r: Vec<String>)
    ensures
        r.deep_view() == each_line(ports@, |p: (u16, u16)| port_detail(p)),
{
    let mut r: Vec<String> = Vec::new();
    for i in 0..ports.len()
        invariant
            r@.len() == i,
            forall|j: int| 0 <= j < i ==> (#[trigger] r@[j])@ == port_detail(ports@[j]),
    {
        r.push(
            String::from_str("  Port: ").concat(decimal_text(ports[i].0 as u64).as_str()).concat(
                " -> ",
            ).concat(decimal_text(ports[i].1 as u64).as_str()),
        );
    }
    proof {
        assert(r.deep_view() =~= each_line(ports@, |p: (u16, u16)| port_detail(p)));
    }
    r
}

fn init_lines(init: &Vec<String>) -> (r: Vec<String>)
    ensures
        r.deep_view() == each_line(init.deep_view(), |c: Seq<char>| "  Init: "@ + c),
{
    let mut r: Vec<String> = Vec::new();
    for i in 0..init.len()
        invariant
            r@.len() == i,
            forall|j: int| 0 <= j < i ==> (#[trigger] r@[j])@ == "  Init: "@ + init@[j]@,
    {
        r.push(String::from_str("  Init: ").concat(init[i].as_str()));
    }
    proof {
        assert(r.deep_view() =~= each_line(init.deep_view(), |c: Seq<char>| "  Init: "@ + c));
    }
    r
}

fn env_lines(env: &Vec<(String, String)>) -> (r: Vec<String>)
    ensures
        r.deep_view() == each_line(
            env.deep_view(),
            |e: (Seq<char>, Seq<char>)| "  Env: "@ + e.0 + "="@ + e.1,
        ),
{
    let mut r: Vec<String> = Vec::new();
    for i in 0..env.len()
        invariant
            r@.len() == i,
            forall|j: int|
                0 <= j < i ==> (#[trigger] r@[j])@ == "  Env: "@ + env@[j].0@ + "="@ + env@[j].1@,
    {
        r.push(
            String::from_str("  Env: ").concat(env[i].0.as_str()).concat("=").concat(
                env[i].1.as_str(),
            ),
        );
    }
    proof {
        assert(r.deep_view() =~= each_line(
            env.deep_view(),
            |e: (Seq<char>, Seq<char>)| "  Env: "@ + e.0 + "="@ + e.1,
        ));
    }
    r
}

/// A list of one line, or none.
fn optional_line(on: bool, line: String) -> (r: Vec<String>)
    ensures
        r.deep_view() == line_if(on, line@),
{
    let mut r = no_lines();
    if on {
        add_line(&mut r, line);
        proof {
            assert(r.deep_view() =~= seq![line@]);
        }
    }
    r
}

/// The details of a machine.
pub fn machine_detail_lines(record: &VmRecord) -> (r: Vec<String>)
    ensures
        r.deep_view() == machine_details(record@),
{
    let pid: i32 = match record.pid {
        Some(p) => p,
        None => 0,
    };
    let workdir = match &record.workdir {
        Some(w) => w.clone(),
        None => String::new(),
    };
    let mut tail = no_lines();
    add_line(&mut tail, String::from_str("  Created: ").concat(record.created_at.as_str()));
    add_line(&mut tail, String::from_str(""));
    proof {
        assert(tail.deep_view() =~= seq!["  Created: "@ + record@.created_at, ""@]);
    }
    let a = crate::lists::joined(
        optional_line(
            record.pid.is_some(),
            String::from_str("  PID: ").concat(signed_text(pid as i64).as_str()),
        ),
        mount_lines(&record.mounts),
    );
    let b = crate::lists::joined(a, port_lines(&record.ports));
    let c = crate::lists::joined(
        b,
        optional_line(record.network, String::from_str("  Network: enabled")),
    );
    let d = crate::lists::joined(c, init_lines(&record.init));
    let e = crate::lists::joined(d, env_lines(&record.env));
    let f = crate::lists::joined(
        e,
        optional_line(
            record.workdir.is_some(),
            String::from_str("  Workdir: ").concat(workdir.as_str()),
        ),
    );
    crate::lists::joined(f, tail)
}

/// The rows of the machine table from the first `n` machines, with details where
/// they are wanted.
pub open spec fn machine_rows(
    vms: Seq<(String, VmRecord)>,
    states: Seq<RecordState>,
    verbose: bool,
    n: int,
) -> Seq<Seq<char>>
    decreases n,
{
    if n <= 0 {
        Seq::empty()
    } else {
        let row = machine_rows(vms, states, verbose, n - 1).push(
            machine_row(vms[n - 1].0@, vms[n - 1].1@, states[n - 1]),
        );
        if verbose {
            row + machine_details(vms[n - 1].1@)
        } else {
            row
        }
    }
}

/// The machine table: a line that says so where there are no machines, else a
/// heading, a rule and the rows.
pub open spec fn machine_table(
    vms: Seq<(String, VmRecord)>,
    states: Seq<RecordState>,
    verbose: bool,
) -> Seq<Seq<char>> {
    if vms.len() == 0 {
        seq!["No machines found"@]
    } else {
        seq![
            machine_columns(
                "NAME"@,
                "STATE"@,
                "CPUS"@,
                "MEMORY"@,
                "MOUNTS"@,
                "PORTS"@,
                "STORAGE"@,
                "OVERLAY"@,
            ),
            repeated('-', 88),
        ] + machine_rows(vms, states, verbose, vms.len() as int)
    }
}

/// List all machines, given their states.
pub fn list_vms(vms: &Vec<(String, VmRecord)>, states: &Vec<RecordState>, verbose: bool) -> (r: Vec<
    String,
>)
    requires
        states@.len() == vms@.len(),
    ensures
        r.deep_view() == machine_table(vms@, states@, verbose),
{
    let mut r = no_lines();
    if vms.len() == 0 {
        add_line(&mut r, String::from_str("No machines found"));
        proof {
            assert(r.deep_view() =~= seq!["No machines found"@]);
        }
        return r;
    }
    let (head, rule) = machine_header();
    add_line(&mut r, head);
    add_line(&mut r, rule);
    let ghost top = r.deep_view();
    proof {
        assert(top =~= seq![head@, rule@]);
        assert(top + machine_rows(vms@, states@, verbose, 0) =~= top);
    }
    for i in 0..vms.len()
        invariant
            states@.len() == vms@.len(),
            r.deep_view() == top + machine_rows(vms@, states@, verbose, i as int),
    {
        let ghost before = r.deep_view();
        let ghost rows = machine_rows(vms@, states@, verbose, i as int);
        let row = machine_table_row(vms[i].0.as_str(), &vms[i].1, states[i]);
        add_line(&mut r, row);
        proof {
            assert(r.deep_view() =~= top + rows.push(row@));
        }
        if verbose {
            let details = machine_detail_lines(&vms[i].1);
            let ghost now = r.deep_view();
            r = crate::lists::joined(r, details);
            proof {
                assert(r.deep_view() =~= top + (rows.push(row@) + details.deep_view()));
            }
        }
    }
    r
}

// ---------------------------------------------------------------------------
// Images
// ---------------------------------------------------------------------------

/// An image as it is listed.
#[derive(Debug)]
pub struct ListedImage {
    /// Reference of the image.
    pub reference: String,
    /// Size in bytes.
    pub size: u64,
    /// Number of layers.
    pub layer_count: usize,
}

/// The line of one image.
pub open spec fn image_row(i: ListedImage) -> Seq<char> {
    pad_right(truncated(i.reference@, 38), 40) + " "@ + pad_left(size_text(i.size), 10) + " "@
        + pad_left(decimal(i.layer_count as nat), 8)
}

/// The line of one image.
pub fn image_line(i: &ListedImage) -> (r: String)
    ensures
        r@ == image_row(*i),
{
    left_aligned(truncate(i.reference.as_str(), 38).as_str(), 40).concat(" ").concat(
        right_aligned(format_bytes(i.size).as_str(), 10).as_str(),
    ).concat(" ").concat(right_aligned(decimal_text(i.layer_count as u64).as_str(), 8).as_str())
}

/// The listing of cached images.
pub open spec fn image_table(
    total: u64,
    used: u64,
    layers: nat,
    images: Seq<ListedImage>,
) -> Seq<Seq<char>> {
    seq![
        "Storage Usage:"@,
        "  Total:  "@ + size_text(total),
        "  Used:   "@ + size_text(used),
        "  Layers: "@ + decimal(layers),
        ""@,
    ] + (if images.len() == 0 {
        seq!["No cached images."@]
    } else {
        seq![
            "Cached Images:"@,
            pad_right("IMAGE"@, 40) + " "@ + pad_left("SIZE"@, 10) + " "@ + pad_left("LAYERS"@, 8),
            repeated('-', 60),
        ] + each_line(images, |i: ListedImage| image_row(i)) + seq![
            ""@,
            "Total: "@ + decimal(images.len()) + " images"@,
        ]
    })
}

/// List cached images and storage usage.
pub fn list_images(
    total_bytes: u64,
    used_bytes: u64,
    layer_count: usize,
    images: &Vec<ListedImage>,
) -> (r: Vec<String>)
    ensures
        r.deep_view() == image_table(total_bytes, used_bytes, layer_count as nat, images@),
{
    let mut r = no_lines();
    add_line(&mut r, String::from_str("Storage Usage:"));
    add_line(&mut r, String::from_str("  Total:  ").concat(format_bytes(total_bytes).as_str()));
    add_line(&mut r, String::from_str("  Used:   ").concat(format_bytes(used_bytes).as_str()));
    add_line(
        &mut r,
        String::from_str("  Layers: ").concat(decimal_text(layer_count as u64).as_str()),
    );
    add_line(&mut r, String::from_str(""));
    let ghost top = r.deep_view();
    proof {
        assert(top =~= seq![
            "Storage Usage:"@,
            "  Total:  "@ + size_text(total_bytes),
            "  Used:   "@ + size_text(used_bytes),
            "  Layers: "@ + decimal(layer_count as nat),
            ""@,
        ]);
    }
    if images.len() == 0 {
        add_line(&mut r, String::from_str("No cached images."));
        proof {
            assert(r.deep_view() =~= top + seq!["No cached images."@]);
        }
        return r;
    }
    add_line(&mut r, String::from_str("Cached Images:"));
    add_line(
        &mut r,
        left_aligned("IMAGE", 40).concat(" ").concat(right_aligned("SIZE", 10).as_str()).concat(
            " ",
        ).concat(right_aligned("LAYERS", 8).as_str()),
    );
    add_line(&mut r, repeat('-', 60));
    let ghost head = seq![
        "Cached Images:"@,
        pad_right("IMAGE"@, 40) + " "@ + pad_left("SIZE"@, 10) + " "@ + pad_left("LAYERS"@, 8),
        repeated('-', 60),
    ];
    let ghost rows = each_line(images@, |i: ListedImage| image_row(i));
    proof {
        assert(r.deep_view() =~= top + head);
        assert(rows.take(0) =~= Seq::empty());
        assert(top + head + rows.take(0) =~= top + head);
    }
    for i in 0..images.len()
        invariant
            rows == each_line(images@, |i: ListedImage| image_row(i)),
            r.deep_view() == top + head + rows.take(i as int),
    {
        add_line(&mut r, image_line(&images[i]));
        proof {
            assert(rows.take(i + 1) =~= rows.take(i as int).push(rows[i as int]));
            assert(top + head + rows.take(i + 1) =~= (top + head + rows.take(i as int)).push(
                rows[i as int],
            ));
        }
    }
    add_line(&mut r, String::from_str(""));
    add_line(
        &mut r,
        String::from_str("Total: ").concat(decimal_text(images.len() as u64).as_str()).concat(
            " images",
        ),
    );
    proof {
        assert(rows.take(rows.len() as int) =~= rows);
        let foot = seq![""@, "Total: "@ + decimal(images@.len()) + " images"@];
        assert(r.deep_view() =~= top + (head + rows + foot));
    }
    r
}

// ---------------------------------------------------------------------------
// Containers
// ---------------------------------------------------------------------------

/// A container as it is listed.
#[derive(Debug)]
pub struct ListedContainer {
    /// Container ID.
    pub id: String,
    /// Image of the container.
    pub image: String,
    /// State of the container.
    pub state: String,
    /// Command of the container.
    pub command: Vec<String>,
}

/// Whether a container is listed: a running one always, any other with `--all`.
pub open spec fn is_listed(c: ListedContainer, all: bool) -> bool {
    all || c.state@ == "running"@
}

/// The first characters of a container ID.
pub open spec fn short_id(id: Seq<char>) -> Seq<char> {
    if id.len() > CONTAINER_ID_WIDTH {
        id.take(CONTAINER_ID_WIDTH as int)
    } else {
        id
    }
}

/// The line of one container.
pub open spec fn container_row(c: ListedContainer) -> Seq<char> {
    pad_right(short_id(c.id@), 16) + " "@ + pad_right(
        truncated(c.image@, IMAGE_NAME_WIDTH as int),
        20,
    ) + " "@ + pad_right(c.state@, 12) + " "@ + pad_right(
        truncated(join_text(c.command.deep_view(), " "@), COMMAND_WIDTH as int),
        30,
    )
}

/// The lines of the first `n` containers: their ids, or their rows.
pub open spec fn container_lines(
    containers: Seq<ListedContainer>,
    all: bool,
    quiet: bool,
    n: int,
) -> Seq<Seq<char>>
    decreases n,
{
    if n <= 0 {
        Seq::empty()
    } else {
        let before = container_lines(containers, all, quiet, n - 1);
        let c = containers[n - 1];
        if !is_listed(c, all) {
            before
        } else if quiet {
            before.push(c.id@)
        } else {
            before.push(container_row(c))
        }
    }
}

/// The listing of a machine's containers.
pub open spec fn container_table(
    containers: Seq<ListedContainer>,
    all: bool,
    quiet: bool,
) -> Seq<Seq<char>> {
    let rows = container_lines(containers, all, quiet, containers.len() as int);
    if quiet {
        rows
    } else if containers.len() == 0 {
        seq!["No containers"@]
    } else {
        seq![
            pad_right("CONTAINER ID"@, 16) + " "@ + pad_right("IMAGE"@, 20) + " "@ + pad_right(
                "STATE"@,
                12,
            ) + " "@ + pad_right("COMMAND"@, 30),
        ] + rows
    }
}

fn container_columns(a: &str, b: &str, c: &str, d: &str) -> (r: String)
    ensures
        r@ == pad_right(a@, 16) + " "@ + pad_right(b@, 20) + " "@ + pad_right(c@, 12) + " "@
            + pad_right(d@, 30),
{
    left_aligned(a, 16).concat(" ").concat(left_aligned(b, 20).as_str()).concat(" ").concat(
        left_aligned(c, 12).as_str(),
    ).concat(" ").concat(left_aligned(d, 30).as_str())
}

/// List containers in a machine: by default only running ones, with `all` every
/// one; with `quiet` only their ids.
pub fn list_containers(containers: &Vec<ListedContainer>, all: bool, quiet: bool) -> (r: Vec<String>)
    ensures
        r.deep_view() == container_table(containers@, all, quiet),
{
    let mut r = no_lines();
    if !quiet {
        if containers.len() == 0 {
            add_line(&mut r, String::from_str("No containers"));
            proof {
                assert(r.deep_view() =~= seq!["No containers"@]);
            }
            return r;
        }
        add_line(&mut r, container_columns("CONTAINER ID", "IMAGE", "STATE", "COMMAND"));
    }
    let ghost top = r.deep_view();
    proof {
        assert(top + container_lines(containers@, all, quiet, 0) =~= top);
    }
    for i in 0..containers.len()
        invariant
            r.deep_view() == top + container_lines(containers@, all, quiet, i as int),
    {
        let ghost before = container_lines(containers@, all, quiet, i as int);
        let c = &containers[i];
        if all || same(c.state.as_str(), "running") {
            let line = if quiet {
                c.id.clone()
            } else {
                container_columns(
                    truncate_id(c.id.as_str()),
                    truncate(c.image.as_str(), IMAGE_NAME_WIDTH).as_str(),
                    c.state.as_str(),
                    truncate(join(&c.command, " ").as_str(), COMMAND_WIDTH).as_str(),
                )
            };
            add_line(&mut r, line);
            proof {
                assert(r.deep_view() =~= top + before.push(line@));
            }
        }
    }
    proof {
        let rows = container_lines(containers@, all, quiet, containers@.len() as int);
        if quiet {
            assert(r.deep_view() =~= rows);
        } else {
            assert(r.deep_view() =~= container_table(containers@, all, quiet));
        }
    }
    r
}

/// Every value of a machine stands in its own column, as far as it fits: the name and the
/// state from the left, and the numbers to the right, with the sizes that hold where none
/// was set.
pub proof fn rows_show_the_record(name: Seq<char>, r: VmRecordView, state: RecordState)
    requires
        name.len() <= 18,
        listed_state(state, r.ephemeral).len() <= 12,
        decimal(r.cpus as nat).len() <= 5,
        (decimal(r.mem as nat) + " MiB"@).len() <= 10,
        decimal(r.mounts.len()).len() <= 7,
        decimal(r.ports.len()).len() <= 7,
        listed_size(r.storage_gb, 20).len() <= 8,
        listed_size(r.overlay_gb, 10).len() <= 8,
    ensures
        ({
            let row = machine_row(name, r, state);
            &&& row.len() == 84
            &&& row.subrange(0, 20) == pad_right(name, 20)
            &&& row.subrange(21, 33) == pad_right(listed_state(state, r.ephemeral), 12)
            &&& row.subrange(34, 39) == pad_left(decimal(r.cpus as nat), 5)
            &&& row.subrange(40, 50) == pad_left(decimal(r.mem as nat) + " MiB"@, 10)
            &&& row.subrange(51, 58) == pad_left(decimal(r.mounts.len()), 7)
            &&& row.subrange(59, 66) == pad_left(decimal(r.ports.len()), 7)
            &&& row.subrange(67, 75) == pad_left(listed_size(r.storage_gb, 20), 8)
            &&& row.subrange(76, 84) == pad_left(listed_size(r.overlay_gb, 10), 8)
        }),
{
    reveal_strlit(" ");
    let row = machine_row(name, r, state);
    assert(row.subrange(0, 20) == pad_right(name, 20));
    assert(row.subrange(21, 33) == pad_right(listed_state(state, r.ephemeral), 12));
    assert(row.subrange(34, 39) == pad_left(decimal(r.cpus as nat), 5));
    assert(row.subrange(40, 50) == pad_left(decimal(r.mem as nat) + " MiB"@, 10));
    assert(row.subrange(51, 58) == pad_left(decimal(r.mounts.len()), 7));
    assert(row.subrange(59, 66) == pad_left(decimal(r.ports.len()), 7));
    assert(row.subrange(67, 75) == pad_left(listed_size(r.storage_gb, 20), 8));
    assert(row.subrange(76, 84) == pad_left(listed_size(r.overlay_gb, 10), 8));
}

/// A state is shown by its word, with a mark behind it exactly for an ephemeral machine, and
/// a size in GiB, that which was set or else the default.
pub proof fn states_and_sizes_are_shown(state: RecordState, size: u64, default: u64)
    ensures
        listed_state(state, false) == state.word(),
        listed_state(state, true) == state.word() + " (eph)"@,
        listed_size(Some(size), default) == decimal(size as nat) + " GiB"@,
        listed_size(None, default) == decimal(default as nat) + " GiB"@,
{
}

/// The table has a row for each machine, in order.
pub proof fn every_machine_is_listed(
    vms: Seq<(String, VmRecord)>,
    states: Seq<RecordState>,
    n: int,
    i: int,
)
    requires
        0 <= i < n <= vms.len(),
    ensures
        machine_rows(vms, states, false, n).len() == n,
        machine_rows(vms, states, false, n)[i] == machine_row(vms[i].0@, vms[i].1@, states[i]),
        vms.len() > 0 ==> machine_table(vms, states, false).len() == 2 + machine_rows(
            vms,
            states,
            false,
            vms.len() as int,
        ).len(),
    decreases n,
{
    if i < n - 1 {
        every_machine_is_listed(vms, states, n - 1, i);
    } else if n > 1 {
        every_machine_is_listed(vms, states, n - 1, 0);
    } else {
        assert(machine_rows(vms, states, false, 0).len() == 0);
    }
}

proof fn lemma_contains_add<T>(a: Seq<T>, b: Seq<T>, x: T)
    ensures
        (a + b).contains(x) <==> a.contains(x) || b.contains(x),
{
    if a.contains(x) {
        let i = choose|i: int| 0 <= i < a.len() && a[i] == x;
        assert((a + b)[i] == x);
    }
    if b.contains(x) {
        let i = choose|i: int| 0 <= i < b.len() && b[i] == x;
        assert((a + b)[a.len() + i] == x);
    }
    if (a + b).contains(x) {
        let i = choose|i: int| 0 <= i < (a + b).len() && (a + b)[i] == x;
        if i < a.len() {
            assert(a[i] == x);
        } else {
            assert(b[i - a.len()] == x);
        }
    }
}

/// The details of a machine show its process, every mount, port, init command and variable,
/// its working directory and when it was made.
pub proof fn details_show_the_whole_record(r: VmRecordView, i: int)
    ensures
        r.pid matches Some(p) ==> machine_details(r).contains("  PID: "@ + int_text(p as int)),
        0 <= i < r.mounts.len() ==> machine_details(r).contains(mount_detail(r.mounts[i])),
        0 <= i < r.ports.len() ==> machine_details(r).contains(
            "  Port: "@ + decimal(r.ports[i].0 as nat) + " -> "@ + decimal(r.ports[i].1 as nat),
        ),
        r.network ==> machine_details(r).contains("  Network: enabled"@),
        0 <= i < r.init.len() ==> machine_details(r).contains("  Init: "@ + r.init[i]),
        0 <= i < r.env.len() ==> machine_details(r).contains(
            "  Env: "@ + r.env[i].0 + "="@ + r.env[i].1,
        ),
        r.workdir matches Some(w) ==> machine_details(r).contains("  Workdir: "@ + w),
        machine_details(r).contains("  Created: "@ + r.created_at),
        machine_details(r).len() == (if r.pid is Some {
            1int
        } else {
            0
        }) + r.mounts.len() + r.ports.len() + (if r.network {
            1int
        } else {
            0
        }) + r.init.len() + r.env.len() + (if r.workdir is Some {
            1int
        } else {
            0
        }) + 2,
{
    let pid = line_if(
        r.pid is Some,
        "  PID: "@ + int_text(match r.pid {
            Some(p) => p as int,
            None => 0,
        }),
    );
    let mounts = each_line(r.mounts, |m: (Seq<char>, Seq<char>, bool)| mount_detail(m));
    let ports = each_line(r.ports, |p: (u16, u16)| port_detail(p));
    let network = line_if(r.network, "  Network: enabled"@);
    let init = each_line(r.init, |c: Seq<char>| "  Init: "@ + c);
    let env = each_line(r.env, |e: (Seq<char>, Seq<char>)| "  Env: "@ + e.0 + "="@ + e.1);
    let workdir = line_if(
        r.workdir is Some,
        "  Workdir: "@ + (match r.workdir {
            Some(w) => w,
            None => Seq::empty(),
        }),
    );
    let made = seq!["  Created: "@ + r.created_at, ""@];
    assert(machine_details(r) == pid + mounts + ports + network + init + env + workdir + made);
    assert forall|x: Seq<char>| #[trigger] machine_details(r).contains(x) <==> pid.contains(x)
        || mounts.contains(x) || ports.contains(x) || network.contains(x) || init.contains(x)
        || env.contains(x) || workdir.contains(x) || made.contains(x) by {
        lemma_contains_add(pid, mounts, x);
        lemma_contains_add(pid + mounts, ports, x);
        lemma_contains_add(pid + mounts + ports, network, x);
        lemma_contains_add(pid + mounts + ports + network, init, x);
        lemma_contains_add(pid + mounts + ports + network + init, env, x);
        lemma_contains_add(pid + mounts + ports + network + init + env, workdir, x);
        lemma_contains_add(pid + mounts + ports + network + init + env + workdir, made, x);
    }
    if r.pid is Some {
        assert(pid.contains(pid[0]));
    }
    if 0 <= i < r.mounts.len() {
        assert(mounts.contains(mounts[i]));
    }
    if 0 <= i < r.ports.len() {
        assert(ports.contains(ports[i]));
    }
    if r.network {
        assert(network.contains(network[0]));
    }
    if 0 <= i < r.init.len() {
        assert(init.contains(init[i]));
    }
    if 0 <= i < r.env.len() {
        assert(env.contains(env[i]));
    }
    if r.workdir is Some {
        assert(workdir.contains(workdir[0]));
    }
    assert(made.contains(made[0]));
}

/// A running container is always listed, and with `--all` every one: by its id alone where
/// that is asked for. Nothing else is listed.
pub proof fn running_containers_are_listed(
    containers: Seq<ListedContainer>,
    all: bool,
    quiet: bool,
    n: int,
    i: int,
)
    requires
        0 <= n <= containers.len(),
    ensures
        0 <= i < n && (all || containers[i].state@ == "running"@) ==> container_lines(
            containers,
            all,
            quiet,
            n,
        ).contains(
            if quiet {
                containers[i].id@
            } else {
                container_row(containers[i])
            },
        ),
        all ==> container_lines(containers, all, quiet, n).len() == n,
        !all && (forall|j: int|
            0 <= j < n ==> (#[trigger] containers[j]).state@ != "running"@) ==> container_lines(
            containers,
            all,
            quiet,
            n,
        ).len() == 0,
    decreases n,
{
    if n > 0 {
        let before = container_lines(containers, all, quiet, n - 1);
        let now = container_lines(containers, all, quiet, n);
        running_containers_are_listed(containers, all, quiet, n - 1, i);
        let x = if quiet {
            containers[i].id@
        } else {
            container_row(containers[i])
        };
        if 0 <= i < n && (all || containers[i].state@ == "running"@) {
            if i < n - 1 {
                let k = choose|k: int| 0 <= k < before.len() && before[k] == x;
                assert(now[k] == x);
            } else {
                assert(now[now.len() - 1] == x);
            }
        }
    }
}

/// Every cached image is listed with its size and its layers, in order, behind the usage of
/// the storage and before their number.
pub proof fn every_image_is_listed(total: u64, used: u64, layers: nat, images: Seq<ListedImage>, i: int)
    requires
        0 <= i < images.len(),
    ensures
        ({
            let lines = image_table(total, used, layers, images);
            &&& lines.len() == images.len() + 10
            &&& lines[1] == "  Total:  "@ + size_text(total)
            &&& lines[2] == "  Used:   "@ + size_text(used)
            &&& lines[3] == "  Layers: "@ + decimal(layers)
            &&& lines[8 + i] == pad_right(truncated(images[i].reference@, 38), 40) + " "@ + pad_left(
                size_text(images[i].size),
                10,
            ) + " "@ + pad_left(decimal(images[i].layer_count as nat), 8)
            &&& lines[(images.len() + 9) as int] == "Total: "@ + decimal(images.len()) + " images"@
        }),
{
    let lines = image_table(total, used, layers, images);
    assert(lines[8 + i] == image_row(images[i]));
}

/// Asked for ids alone, a listing of containers is their ids and nothing else; otherwise a
/// heading stands above their rows.
pub proof fn container_listings_have_a_heading(containers: Seq<ListedContainer>, all: bool)
    requires
        containers.len() > 0,
    ensures
        container_table(containers, all, true) == container_lines(
            containers,
            all,
            true,
            containers.len() as int,
        ),
        container_table(containers, all, false).len() == 1 + container_lines(
            containers,
            all,
            false,
            containers.len() as int,
        ).len(),
        container_table(containers, all, false).skip(1) == container_lines(
            containers,
            all,
            false,
            containers.len() as int,
        ),
{
    assert(container_table(containers, all, false).skip(1) == container_lines(
        containers,
        all,
        false,
        containers.len() as int,
    ));
}

/// The row of a container shows its short id, its image, its state and its command, each in
/// its own column, as far as they fit.
pub proof fn container_rows_show_the_container(c: ListedContainer)
    requires
        c.state@.len() <= 12,
    ensures
        ({
            let row = container_row(c);
            let id = if c.id@.len() > 12 {
                c.id@.take(12)
            } else {
                c.id@
            };
            &&& row.subrange(0, 16) == pad_right(id, 16)
            &&& row.subrange(17, 37) == pad_right(truncated(c.image@, 18), 20)
            &&& row.subrange(38, 50) == pad_right(c.state@, 12)
            &&& row.subrange(51, 81) == pad_right(
                truncated(join_text(c.command.deep_view(), " "@), 28),
                30,
            )
            &&& row.len() == 81
        }),
{
    reveal_strlit(" ");
    truncation_respects_width(c.image@, 18);
    truncation_respects_width(join_text(c.command.deep_view(), " "@), 28);
    let row = container_row(c);
    let id = short_id(c.id@);
    assert(row.subrange(0, 16) == pad_right(id, 16));
    assert(row.subrange(17, 37) == pad_right(truncated(c.image@, 18), 20));
    assert(row.subrange(38, 50) == pad_right(c.state@, 12));
    assert(row.subrange(51, 81) == pad_right(
        truncated(join_text(c.command.deep_view(), " "@), 28),
        30,
    ));
}

} // verus!
