//! The PowerShell scripts that the tasks run, and those that capture and
//! restore the state that reversible tasks change.

use vstd::prelude::*;
use crate::text::text_occurs_at;

verus! {

/// Removes temporary files, browser caches, recent-item lists and the recycle bin.
pub const CLEANUP_STANDARD_SCRIPT: &'static str = r#"
$ErrorActionPreference = 'SilentlyContinue';
foreach ($path in @($env:TEMP, "$env:WINDIR\Temp")) {
    if (Test-Path $path) { Remove-Item -Path "$path\*" -Recurse -Force -ErrorAction SilentlyContinue }
}
$browserRoots = @(
    "$env:LOCALAPPDATA\Google\Chrome\User Data",
    "$env:LOCALAPPDATA\Microsoft\Edge\User Data",
    "$env:LOCALAPPDATA\BraveSoftware\Brave-Browser\User Data",
    "$env:LOCALAPPDATA\Vivaldi\User Data",
    "$env:APPDATA\Opera Software\Opera Stable",
    "$env:APPDATA\Mozilla\Firefox\Profiles"
)
$cacheNames = @('Cache', 'Cache2', 'Code Cache', 'GPUCache', 'StartupCache', 'shader-cache', 'Service Worker\CacheStorage')
foreach ($root in $browserRoots) {
    if (Test-Path $root) {
        Get-ChildItem -LiteralPath $root -Directory -Recurse -Force -ErrorAction SilentlyContinue | ForEach-Object {
            if ($cacheNames -contains $_.Name -or $_.FullName -match '\\Service Worker\\CacheStorage$') { Remove-Item -LiteralPath $_.FullName -Recurse -Force -ErrorAction SilentlyContinue }
        }
    }
}
Clear-RecycleBin -Force -ErrorAction SilentlyContinue;
foreach ($key in @(
    'HKCU:\Software\Microsoft\Windows\CurrentVersion\Explorer\RecentDocs',
    'HKCU:\Software\Microsoft\Windows\CurrentVersion\Explorer\RunMRU',
    'HKCU:\Software\Microsoft\Windows\CurrentVersion\Explorer\TypedPaths',
    'HKCU:\Software\Microsoft\Windows\CurrentVersion\Explorer\ComDlg32\OpenSavePidlMRU',
    'HKCU:\Software\Microsoft\Windows\CurrentVersion\Explorer\ComDlg32\LastVisitedPidlMRU',
    'HKCU:\Software\Microsoft\Windows\CurrentVersion\Explorer\Map Network Drive MRU',
    'HKCU:\Software\Microsoft\Windows\CurrentVersion\Explorer\WordWheelQuery'
)) { Remove-Item -Path $key -Recurse -Force -ErrorAction SilentlyContinue }
Get-ChildItem -Path "$env:APPDATA\Microsoft\Windows\Recent" -File -Force -ErrorAction SilentlyContinue | Remove-Item -Force -Confirm:$false -ErrorAction SilentlyContinue;
Write-Output 'Limpeza padrão concluída: temporários, caches, MRUs e lixeira.';
"#;

/// Removes temporary files, crash dumps and kernel reports, and empties the recycle bin.
pub const CLEANUP_HEAVY_TEMP_SCRIPT: &'static str = r#"
$paths = @("$env:TEMP", "$env:WINDIR\Temp", "$env:WINDIR\Minidump", "$env:WINDIR\LiveKernelReports");
foreach ($p in $paths) { if (Test-Path $p) { Get-ChildItem $p -Recurse -Force -ErrorAction SilentlyContinue | Remove-Item -Recurse -Force -ErrorAction SilentlyContinue; } }
Clear-RecycleBin -Force -ErrorAction SilentlyContinue;
Write-Output 'Limpeza pesada concluída.';
"#;

/// Removes the temporary files of Windows Update downloads.
pub const CLEANUP_WINDOWS_UPDATE_SCRIPT: &'static str = r#"
$ErrorActionPreference = 'SilentlyContinue';
$path = "$env:WINDIR\SoftwareDistribution\Download";
if (Test-Path $path) { Remove-Item -Path "$path\*.tmp" -Force -ErrorAction SilentlyContinue }
Write-Output 'Cache temporário do Windows Update processado.';
"#;

/// Turns off telemetry policies, services, scheduled tasks and the Recall feature.
pub const DISABLE_TELEMETRY_SCRIPT: &'static str = r#"
$ErrorActionPreference = 'SilentlyContinue';
function Set-Dword { param([string]$Path, [string]$Name, [int]$Value) New-Item -Path $Path -Force -ErrorAction SilentlyContinue | Out-Null; New-ItemProperty -Path $Path -Name $Name -PropertyType DWord -Value $Value -Force -ErrorAction SilentlyContinue | Out-Null }
$telemetryKeys = @(
  @('HKLM:\SOFTWARE\Policies\Microsoft\Windows\DataCollection', 'AllowTelemetry', 0),
  @('HKLM:\SOFTWARE\Policies\Microsoft\Windows\DataCollection', 'AllowDeviceNameInTelemetry', 0),
  @('HKLM:\SOFTWARE\Microsoft\Windows\CurrentVersion\Policies\DataCollection', 'AllowTelemetry', 0),
  @('HKLM:\SOFTWARE\Wow6432Node\Microsoft\Windows\CurrentVersion\Policies\DataCollection', 'AllowTelemetry', 0),
  @('HKLM:\SOFTWARE\Policies\Microsoft\Windows\DataCollection', 'DoNotShowFeedbackNotifications', 1),
    @('HKLM:\SOFTWARE\Policies\Microsoft\Windows\DataCollection', 'DisableTelemetryOptInChangeNotification', 1),
    @('HKLM:\SOFTWARE\Policies\Microsoft\Windows\DataCollection', 'DisableEnterpriseAuthProxy', 1),
    @('HKLM:\SOFTWARE\Policies\Microsoft\Windows\WindowsAI', 'DisableAIDataAnalysis', 1),
    @('HKLM:\SOFTWARE\Policies\Microsoft\Windows\WindowsAI', 'TurnOffWindowsCopilot', 1),
    @('HKCU:\SOFTWARE\Policies\Microsoft\Windows\WindowsAI', 'DisableAIDataAnalysis', 1),
    @('HKLM:\SOFTWARE\Microsoft\Windows\CurrentVersion\Explorer\Advanced', 'EnableRecallOnDevice', 0),
    @('HKCU:\SOFTWARE\Microsoft\Windows\CurrentVersion\Explorer\Advanced', 'EnableRecallOnDevice', 0)
)
foreach ($key in $telemetryKeys) { Set-Dword -Path $key[0] -Name $key[1] -Value $key[2] }
foreach ($serviceName in @('DiagTrack', 'dmwappushservice')) {
  $service = Get-Service -Name $serviceName -ErrorAction SilentlyContinue
  if ($service) { Stop-Service -Name $serviceName -Force -ErrorAction SilentlyContinue; Set-Service -Name $serviceName -StartupType Disabled -ErrorAction SilentlyContinue }
}
$tasks = @(
  '\Microsoft\Windows\Application Experience\Microsoft Compatibility Appraiser',
  '\Microsoft\Windows\Application Experience\ProgramDataUpdater',
  '\Microsoft\Windows\Autochk\Proxy',
  '\Microsoft\Windows\Customer Experience Improvement Program\Consolidator',
  '\Microsoft\Windows\Customer Experience Improvement Program\UsbCeip',
    '\Microsoft\Windows\Customer Experience Improvement Program\KernelCeipTask',
  '\Microsoft\Windows\DiskDiagnostic\Microsoft-Windows-DiskDiagnosticDataCollector',
  '\Microsoft\Windows\Feedback\Siuf\DmClient',
  '\Microsoft\Windows\Feedback\Siuf\DmClientOnScenarioDownload'
)
foreach ($task in $tasks) { Disable-ScheduledTask -TaskName $task -ErrorAction SilentlyContinue | Out-Null }
 $feature = Get-WindowsOptionalFeature -Online -FeatureName 'Recall' -ErrorAction SilentlyContinue;
if ($feature -and $feature.State -eq 'Enabled') { Disable-WindowsOptionalFeature -Online -FeatureName 'Recall' -NoRestart -ErrorAction SilentlyContinue | Out-Null }
Write-Output 'Telemetria e diagnósticos ajustados.';
"#;

/// Disables the compatibility and diagnostic scheduled tasks.
pub const DISABLE_DIAGNOSTIC_TASKS_SCRIPT: &'static str = r#"foreach ($task in @('\Microsoft\Windows\Application Experience\Microsoft Compatibility Appraiser','\Microsoft\Windows\Application Experience\ProgramDataUpdater','\Microsoft\Windows\Autochk\Proxy')) { $path = [System.IO.Path]::GetDirectoryName($task) + '\'; $name = [System.IO.Path]::GetFileName($task); Disable-ScheduledTask -TaskPath $path -TaskName $name -ErrorAction Stop | Out-Null }; Write-Output 'Tarefas de diagnóstico desativadas.';"#;

/// Captures, as JSON, the state that the telemetry task changes.
pub const TELEMETRY_SNAPSHOT_SCRIPT: &'static str = r#"$ErrorActionPreference='Stop';$r=@();$specs=@(@('LocalMachine','SOFTWARE\Policies\Microsoft\Windows\DataCollection','AllowTelemetry'),@('LocalMachine','SOFTWARE\Policies\Microsoft\Windows\DataCollection','AllowDeviceNameInTelemetry'),@('LocalMachine','SOFTWARE\Microsoft\Windows\CurrentVersion\Policies\DataCollection','AllowTelemetry'),@('LocalMachine','SOFTWARE\Wow6432Node\Microsoft\Windows\CurrentVersion\Policies\DataCollection','AllowTelemetry'),@('LocalMachine','SOFTWARE\Policies\Microsoft\Windows\DataCollection','DoNotShowFeedbackNotifications'),@('LocalMachine','SOFTWARE\Policies\Microsoft\Windows\DataCollection','DisableTelemetryOptInChangeNotification'),@('LocalMachine','SOFTWARE\Policies\Microsoft\Windows\DataCollection','DisableEnterpriseAuthProxy'),@('LocalMachine','SOFTWARE\Policies\Microsoft\Windows\WindowsAI','DisableAIDataAnalysis'),@('LocalMachine','SOFTWARE\Policies\Microsoft\Windows\WindowsAI','TurnOffWindowsCopilot'),@('CurrentUser','SOFTWARE\Policies\Microsoft\Windows\WindowsAI','DisableAIDataAnalysis'),@('LocalMachine','SOFTWARE\Microsoft\Windows\CurrentVersion\Explorer\Advanced','EnableRecallOnDevice'),@('CurrentUser','SOFTWARE\Microsoft\Windows\CurrentVersion\Explorer\Advanced','EnableRecallOnDevice'));foreach($s in $specs){$b=[Microsoft.Win32.RegistryKey]::OpenBaseKey([Microsoft.Win32.RegistryHive]::$($s[0]),[Microsoft.Win32.RegistryView]::Default);$k=$b.OpenSubKey($s[1]);$e=$k -and ($k.GetValueNames()-contains $s[2]);$v=$null;$t=$null;if($e){$t=$k.GetValueKind($s[2]).ToString();$v=$k.GetValue($s[2],$null,[Microsoft.Win32.RegistryValueOptions]::DoNotExpandEnvironmentNames);if($t-eq'Binary'){$v=[Convert]::ToBase64String($v)}};$r+=[pscustomobject]@{hive=$s[0];path=$s[1];value_name=$s[2];exists=$e;value_type=$t;value=$v}};$sv=@();foreach($n in @('DiagTrack','dmwappushservice')){$x=Get-CimInstance Win32_Service -Filter "Name='$n'";$sv+=[pscustomobject]@{name=$n;exists=[bool]$x;startup_type=if($x){$x.StartMode}else{$null};state=if($x){$x.State}else{$null}}};$tasks=@();foreach($n in @('\Microsoft\Windows\Application Experience\Microsoft Compatibility Appraiser','\Microsoft\Windows\Application Experience\ProgramDataUpdater','\Microsoft\Windows\Autochk\Proxy','\Microsoft\Windows\Customer Experience Improvement Program\Consolidator','\Microsoft\Windows\Customer Experience Improvement Program\UsbCeip','\Microsoft\Windows\Customer Experience Improvement Program\KernelCeipTask','\Microsoft\Windows\DiskDiagnostic\Microsoft-Windows-DiskDiagnosticDataCollector','\Microsoft\Windows\Feedback\Siuf\DmClient','\Microsoft\Windows\Feedback\Siuf\DmClientOnScenarioDownload')){$p=[System.IO.Path]::GetDirectoryName($n)+'\';$q=[System.IO.Path]::GetFileName($n);$x=Get-ScheduledTask -TaskPath $p -TaskName $q -ErrorAction SilentlyContinue;$tasks+=[pscustomobject]@{task_path=$p;task_name=$q;exists=[bool]$x;enabled=if($x){$x.State-ne'Disabled'}else{$null}}};$f=Get-WindowsOptionalFeature -Online -FeatureName Recall -ErrorAction SilentlyContinue;[pscustomobject]@{strategy='telemetry';registry=$r;services=$sv;scheduled_tasks=$tasks;features=@([pscustomobject]@{name='Recall';exists=[bool]$f;state=if($f){$f.State}else{$null}})}|ConvertTo-Json -Depth 8 -Compress"#;

/// Captures, as JSON, the state of the diagnostic scheduled tasks.
pub const DIAGNOSTIC_TASKS_SNAPSHOT_SCRIPT: &'static str = r#"$ErrorActionPreference='Stop';$tasks=@();foreach($n in @('\Microsoft\Windows\Application Experience\Microsoft Compatibility Appraiser','\Microsoft\Windows\Application Experience\ProgramDataUpdater','\Microsoft\Windows\Autochk\Proxy')){$p=[System.IO.Path]::GetDirectoryName($n)+'\';$q=[System.IO.Path]::GetFileName($n);$x=Get-ScheduledTask -TaskPath $p -TaskName $q -ErrorAction SilentlyContinue;$tasks+=[pscustomobject]@{task_path=$p;task_name=$q;exists=[bool]$x;enabled=if($x){$x.State-ne'Disabled'}else{$null}}};[pscustomobject]@{strategy='diagnostic_tasks';registry=@();services=@();scheduled_tasks=$tasks;features=@()}|ConvertTo-Json -Depth 8 -Compress"#;

/// Puts back the state held in the snapshot `$s`.
pub const RESTORE_SCRIPT: &'static str = r#"foreach($x in $s.registry){$b=[Microsoft.Win32.RegistryKey]::OpenBaseKey([Microsoft.Win32.RegistryHive]::$($x.hive),[Microsoft.Win32.RegistryView]::Default);$k=$b.OpenSubKey($x.path,$true);if(!$x.exists){if($k){$k.DeleteValue($x.value_name,$false)}}else{if(!$k){$k=$b.CreateSubKey($x.path)};$v=$x.value;if($x.value_type-eq'Binary'){$v=[Convert]::FromBase64String($v)};$k.SetValue($x.value_name,$v,[Microsoft.Win32.RegistryValueKind]::$($x.value_type))}};foreach($x in $s.services){if($x.exists){$startup=$x.startup_type;if($startup-eq'Auto'){$startup='Automatic'};Set-Service -Name $x.name -StartupType $startup;if($x.state-eq'Running'){Start-Service -Name $x.name}else{Stop-Service -Name $x.name -Force}}};foreach($x in $s.scheduled_tasks){if($x.exists){if($x.enabled){Enable-ScheduledTask -TaskPath $x.task_path -TaskName $x.task_name}else{Disable-ScheduledTask -TaskPath $x.task_path -TaskName $x.task_name}}};foreach($x in $s.features){if($x.exists -and $x.state-eq'Enabled'){Enable-WindowsOptionalFeature -Online -FeatureName $x.name -NoRestart}else{Disable-WindowsOptionalFeature -Online -FeatureName $x.name -NoRestart}}"#;


/// The diagnostic-tasks snapshot script labels what it captures with its own strategy.
pub proof fn lemma_diagnostic_tasks_snapshot_declares_strategy()
    ensures
        text_occurs_at(DIAGNOSTIC_TASKS_SNAPSHOT_SCRIPT@, "strategy='diagnostic_tasks'"@, 532),
{
    reveal_strlit(r#"$ErrorActionPreference='Stop';$tasks=@();foreach($n in @('\Microsoft\Windows\Application Experience\Microsoft Compatibility Appraiser','\Microsoft\Windows\Application Experience\ProgramDataUpdater','\Microsoft\Windows\Autochk\Proxy')){$p=[System.IO.Path]::GetDirectoryName($n)+'\';$q=[System.IO.Path]::GetFileName($n);$x=Get-ScheduledTask -TaskPath $p -TaskName $q -ErrorAction SilentlyContinue;$tasks+=[pscustomobject]@{task_path=$p;task_name=$q;exists=[bool]$x;enabled=if($x){$x.State-ne'Disabled'}else{$null}}};[pscustomobject]@{strategy='diagnostic_tasks';registry=@();services=@();scheduled_tasks=$tasks;features=@()}|ConvertTo-Json -Depth 8 -Compress"#);
    reveal_strlit("strategy='diagnostic_tasks'");
    assert(DIAGNOSTIC_TASKS_SNAPSHOT_SCRIPT@.subrange(532, 559) =~= "strategy='diagnostic_tasks'"@);
}

/// The telemetry snapshot script labels what it captures with its own strategy.
pub proof fn lemma_telemetry_snapshot_declares_strategy()
    ensures
        text_occurs_at(TELEMETRY_SNAPSHOT_SCRIPT@, "strategy='telemetry'"@, 3007),
{
    reveal_strlit(r#"$ErrorActionPreference='Stop';$r=@();$specs=@(@('LocalMachine','SOFTWARE\Policies\Microsoft\Windows\DataCollection','AllowTelemetry'),@('LocalMachine','SOFTWARE\Policies\Microsoft\Windows\DataCollection','AllowDeviceNameInTelemetry'),@('LocalMachine','SOFTWARE\Microsoft\Windows\CurrentVersion\Policies\DataCollection','AllowTelemetry'),@('LocalMachine','SOFTWARE\Wow6432Node\Microsoft\Windows\CurrentVersion\Policies\DataCollection','AllowTelemetry'),@('LocalMachine','SOFTWARE\Policies\Microsoft\Windows\DataCollection','DoNotShowFeedbackNotifications'),@('LocalMachine','SOFTWARE\Policies\Microsoft\Windows\DataCollection','DisableTelemetryOptInChangeNotification'),@('LocalMachine','SOFTWARE\Policies\Microsoft\Windows\DataCollection','DisableEnterpriseAuthProxy'),@('LocalMachine','SOFTWARE\Policies\Microsoft\Windows\WindowsAI','DisableAIDataAnalysis'),@('LocalMachine','SOFTWARE\Policies\Microsoft\Windows\WindowsAI','TurnOffWindowsCopilot'),@('CurrentUser','SOFTWARE\Policies\Microsoft\Windows\WindowsAI','DisableAIDataAnalysis'),@('LocalMachine','SOFTWARE\Microsoft\Windows\CurrentVersion\Explorer\Advanced','EnableRecallOnDevice'),@('CurrentUser','SOFTWARE\Microsoft\Windows\CurrentVersion\Explorer\Advanced','EnableRecallOnDevice'));foreach($s in $specs){$b=[Microsoft.Win32.RegistryKey]::OpenBaseKey([Microsoft.Win32.RegistryHive]::$($s[0]),[Microsoft.Win32.RegistryView]::Default);$k=$b.OpenSubKey($s[1]);$e=$k -and ($k.GetValueNames()-contains $s[2]);$v=$null;$t=$null;if($e){$t=$k.GetValueKind($s[2]).ToString();$v=$k.GetValue($s[2],$null,[Microsoft.Win32.RegistryValueOptions]::DoNotExpandEnvironmentNames);if($t-eq'Binary'){$v=[Convert]::ToBase64String($v)}};$r+=[pscustomobject]@{hive=$s[0];path=$s[1];value_name=$s[2];exists=$e;value_type=$t;value=$v}};$sv=@();foreach($n in @('DiagTrack','dmwappushservice')){$x=Get-CimInstance Win32_Service -Filter "Name='$n'";$sv+=[pscustomobject]@{name=$n;exists=[bool]$x;startup_type=if($x){$x.StartMode}else{$null};state=if($x){$x.State}else{$null}}};$tasks=@();foreach($n in @('\Microsoft\Windows\Application Experience\Microsoft Compatibility Appraiser','\Microsoft\Windows\Application Experience\ProgramDataUpdater','\Microsoft\Windows\Autochk\Proxy','\Microsoft\Windows\Customer Experience Improvement Program\Consolidator','\Microsoft\Windows\Customer Experience Improvement Program\UsbCeip','\Microsoft\Windows\Customer Experience Improvement Program\KernelCeipTask','\Microsoft\Windows\DiskDiagnostic\Microsoft-Windows-DiskDiagnosticDataCollector','\Microsoft\Windows\Feedback\Siuf\DmClient','\Microsoft\Windows\Feedback\Siuf\DmClientOnScenarioDownload')){$p=[System.IO.Path]::GetDirectoryName($n)+'\';$q=[System.IO.Path]::GetFileName($n);$x=Get-ScheduledTask -TaskPath $p -TaskName $q -ErrorAction SilentlyContinue;$tasks+=[pscustomobject]@{task_path=$p;task_name=$q;exists=[bool]$x;enabled=if($x){$x.State-ne'Disabled'}else{$null}}};$f=Get-WindowsOptionalFeature -Online -FeatureName Recall -ErrorAction SilentlyContinue;[pscustomobject]@{strategy='telemetry';registry=$r;services=$sv;scheduled_tasks=$tasks;features=@([pscustomobject]@{name='Recall';exists=[bool]$f;state=if($f){$f.State}else{$null}})}|ConvertTo-Json -Depth 8 -Compress"#);
    reveal_strlit("strategy='telemetry'");
    assert(TELEMETRY_SNAPSHOT_SCRIPT@.subrange(3007, 3027) =~= "strategy='telemetry'"@);
}

} // verus!
