//! The platform filter: which records of a manifest fit the running platform.

use crate::manifest::{
    arch_named, os_named, Arch, HostError, InstallationDetailItem,
    InstallationRecord, RawInstallationDetailItem, ResolvedInstallation, ToolEntry,
    ToolInstallationManifest, OS,
};
use crate::text::{clone_optional, starts_with};
use vstd::prelude::*;

verus! {

/// A record fits a platform when it names that operating system and either
/// names no architecture or names that one.
pub open spec fn fits_platform(record: InstallationRecord, os: OS, arch: Arch) -> bool {
    record.os == os && (record.arch is None || record.arch == Some(arch))
}

/// A tool paired with one of its records.
pub open spec fn pair(tool: ToolEntry, record: InstallationRecord) -> ResolvedInstallation {
    ResolvedInstallation {
        name: tool.name,
        description: tool.description,
        os: record.os,
        arch: record.arch,
        id: record.id,
        kind: record.kind,
        source: record.source,
        post_install: record.post_install,
    }
}

/// The records among `records` that fit the platform, each paired with `tool`,
/// in their order.
pub open spec fn resolve_records(
    tool: ToolEntry,
    records: Seq<InstallationRecord>,
    os: OS,
    arch: Arch,
) -> Seq<ResolvedInstallation>
    decreases records.len(),
{
    if records.len() == 0 {
        Seq::empty()
    } else {
        let before = resolve_records(tool, records.drop_last(), os, arch);
        if fits_platform(records.last(), os, arch) {
            before.push(pair(tool, records.last()))
        } else {
            before
        }
    }
}

/// Every fitting record of every tool, in manifest order. A tool with several
/// fitting records contributes each of them; a tool with none contributes nothing.
pub open spec fn resolve(tools: Seq<ToolEntry>, os: OS, arch: Arch) -> Seq<ResolvedInstallation>
    decreases tools.len(),
{
    if tools.len() == 0 {
        Seq::empty()
    } else {
        resolve(tools.drop_last(), os, arch) + resolve_records(
            tools.last(),
            tools.last().installations,
            os,
            arch,
        )
    }
}

/// What a sequence of tools stands for.
pub open spec fn entries(tools: Seq<ToolInstallationManifest>) -> Seq<ToolEntry> {
    tools.map_values(|t: ToolInstallationManifest| t@)
}

/// What a sequence of resolved installations stands for.
pub open spec fn resolved(items: Seq<InstallationDetailItem>) -> Seq<ResolvedInstallation> {
    items.map_values(|t: InstallationDetailItem| t@)
}

/// Everything that the filter keeps fits the platform.
pub proof fn lemma_resolved_fit_platform(tools: Seq<ToolEntry>, os: OS, arch: Arch)
    ensures
        forall|k: int|
            0 <= k < resolve(tools, os, arch).len() ==> {
                let r = #[trigger] resolve(tools, os, arch)[k];
                r.os == os && (r.arch is None || r.arch == Some(arch))
            },
    decreases tools.len(),
{
    if tools.len() > 0 {
        lemma_resolved_fit_platform(tools.drop_last(), os, arch);
        lemma_records_fit_platform(tools.last(), tools.last().installations, os, arch);
    }
}

/// Everything kept of one tool's records fits the platform and carries the
/// tool's name.
pub proof fn lemma_records_fit_platform(
    tool: ToolEntry,
    records: Seq<InstallationRecord>,
    os: OS,
    arch: Arch,
)
    ensures
        resolve_records(tool, records, os, arch).len() <= records.len(),
        forall|k: int|
            0 <= k < resolve_records(tool, records, os, arch).len() ==> {
                let r = #[trigger] resolve_records(tool, records, os, arch)[k];
                r.os == os && (r.arch is None || r.arch == Some(arch)) && r.name == tool.name
            },
    decreases records.len(),
{
    if records.len() > 0 {
        lemma_records_fit_platform(tool, records.drop_last(), os, arch);
    }
}

fn platform_matches(record: &RawInstallationDetailItem, os: OS, arch: Arch) -> (fits: bool)
    ensures
        fits == fits_platform(record@, os, arch),
{
    if record.os == os {
        match record.arch {
            Some(declared) => declared == arch,
            None => true,
        }
    } else {
        false
    }
}

fn resolve_one(tool: &ToolInstallationManifest, record: &RawInstallationDetailItem) -> (item:
    InstallationDetailItem)
    ensures
        item@ == pair(tool@, record@),
{
    InstallationDetailItem {
        name: tool.name.clone(),
        description: tool.description.clone(),
        os: record.os,
        arch: record.arch,
        id: record.id.clone(),
        kind: record.kind,
        source: record.source.clone(),
        post_install: clone_optional(&record.post_install),
    }
}

/// Selects, for a host that calls its operating system `cur_os` and its
/// processor `cur_arch`, the records of `tools_installation_manifest` that fit,
/// each paired with its tool, in manifest order. A host name that stands for no
/// known platform is refused before anything is selected: the operating system
/// is looked at first.
pub fn filter_tool_installation_detail(
    tools_installation_manifest: &[ToolInstallationManifest],
    cur_os: &str,
    cur_arch: &str,
) -> (selected: Result<Vec<InstallationDetailItem>, HostError>)
    ensures
        os_named(cur_os@) is None ==> (selected matches Err(HostError::UnsupportedOs(t)) && t@
            == cur_os@),
        os_named(cur_os@) is Some && arch_named(cur_arch@) is None ==> (selected matches Err(
            HostError::UnsupportedArch(t),
        ) && t@ == cur_arch@),
        os_named(cur_os@) is Some && arch_named(cur_arch@) is Some ==> (selected matches Ok(v)
            && resolved(v@) == resolve(
            entries(tools_installation_manifest@),
            os_named(cur_os@).unwrap(),
            arch_named(cur_arch@).unwrap(),
        )),
        selected matches Ok(v) ==> forall|k: int|
            0 <= k < v.len() ==> os_named(cur_os@) == Some((#[trigger] v[k]).os) && (v[k].arch
                is None || v[k].arch == arch_named(cur_arch@)),
{
    let os = match OS::from_str(cur_os) {
        Ok(os) => os,
        Err(e) => {
            return Err(e);
        },
    };
    let arch = match Arch::from_str(cur_arch) {
        Ok(arch) => arch,
        Err(e) => {
            return Err(e);
        },
    };
    let ghost tools = entries(tools_installation_manifest@);
    let mut selected: Vec<InstallationDetailItem> = Vec::new();
    let mut t: usize = 0;
    while t < tools_installation_manifest.len()
        invariant
            t <= tools_installation_manifest.len(),
            tools == entries(tools_installation_manifest@),
            resolved(selected@) == resolve(tools.take(t as int), os, arch),
        decreases tools_installation_manifest.len() - t,
    {
        let tool = &tools_installation_manifest[t];
        let ghost before = resolved(selected@);
        let ghost records = tool@.installations;
        let mut r: usize = 0;
        while r < tool.installations.len()
            invariant
                r <= tool.installations.len(),
                records == tool@.installations,
                resolved(selected@) == before + resolve_records(
                    tool@,
                    records.take(r as int),
                    os,
                    arch,
                ),
            decreases tool.installations.len() - r,
        {
            let record = &tool.installations[r];
            proof {
                assert(records.take(r + 1).drop_last() == records.take(r as int));
                assert(records.take(r + 1).last() == record@);
            }
            if platform_matches(record, os, arch) {
                let item = resolve_one(tool, record);
                let ghost old_selected = selected@;
                selected.push(item);
                proof {
                    assert(resolved(selected@) == resolved(old_selected).push(item@));
                    assert(resolved(selected@) == before + resolve_records(
                        tool@,
                        records.take(r + 1),
                        os,
                        arch,
                    ));
                }
            }
            r += 1;
        }
        proof {
            assert(records.take(r as int) == records);
            assert(tools.take(t + 1).drop_last() == tools.take(t as int));
            assert(tools.take(t + 1).last() == tool@);
        }
        t += 1;
    }
    proof {
        assert(tools.take(t as int) == tools);
        lemma_resolved_fit_platform(tools, os, arch);
        assert forall|k: int| 0 <= k < selected.len() implies (#[trigger] selected[k]).os == os
            && (selected[k].arch is None || selected[k].arch == Some(arch)) by {
            assert(resolved(selected@)[k] == selected[k]@);
        }
    }
    Ok(selected)
}

/// Where a manifest is read from.
#[derive(Debug)]
pub enum ManifestSource {
    /// Fetched from this URL.
    Remote(String),
    /// Read from the file at this path.
    Local(String),
}

/// Whether a manifest path names a URL: it does when it begins with `http`.
pub open spec fn is_remote(manifest_path: Seq<char>) -> bool {
    "http"@.is_prefix_of(manifest_path)
}

/// Tells where the manifest at `manifest_path` is read from: a path that
/// begins with `http` is a URL, any other a file.
pub fn get_tookits_manifest(manifest_path: &str) -> (source: ManifestSource)
    ensures
        is_remote(manifest_path@) ==> (source matches ManifestSource::Remote(url) && url@
            == manifest_path@),
        !is_remote(manifest_path@) ==> (source matches ManifestSource::Local(path) && path@
            == manifest_path@),
{
    if starts_with(manifest_path, "http") {
        ManifestSource::Remote(String::from_str(manifest_path))
    } else {
        ManifestSource::Local(String::from_str(manifest_path))
    }
}

} // verus!
