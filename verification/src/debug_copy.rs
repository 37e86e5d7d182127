//! Interface text of the debug windows in the two languages they ship.

use vstd::prelude::*;

verus! {

/// Interface language.
#[derive(Clone, Copy, Debug, PartialEq, Eq, Structural)]
pub enum Locale {
    EnUs,
    ZhCn,
    ZhTw,
}

pub open spec fn uses_chinese_text(locale: Locale) -> bool {
    locale is ZhCn || locale is ZhTw
}

/// Labels of the developer tools window.
#[derive(Clone, Copy, Debug)]
pub struct DebugCopy {
    pub devtools: &'static str,
    pub subtitle: &'static str,
    pub overview: &'static str,
    pub elements: &'static str,
    pub performance: &'static str,
    pub logs: &'static str,
    pub navigator: &'static str,
    pub explorer: &'static str,
    pub selected_node: &'static str,
    pub recent_nodes: &'static str,
    pub recent_nodes_hint: &'static str,
    pub no_history: &'static str,
    pub actions: &'static str,
    pub paths: &'static str,
    pub styles: &'static str,
    pub metrics: &'static str,
    pub log_source: &'static str,
    pub latest_log: &'static str,
    pub stall_log: &'static str,
    pub console_filters: &'static str,
    pub filter_all: &'static str,
    pub filter_errors: &'static str,
    pub filter_warnings: &'static str,
    pub filter_info: &'static str,
    pub filter_debug: &'static str,
    pub filter_trace: &'static str,
    pub runtime: &'static str,
    pub inspector: &'static str,
    pub enabled: &'static str,
    pub picking: &'static str,
    pub source: &'static str,
    pub window: &'static str,
    pub debug_window: &'static str,
    pub fps: &'static str,
    pub app_version: &'static str,
    pub executable: &'static str,
    pub exe_size: &'static str,
    pub updates: &'static str,
    pub element_viewer: &'static str,
    pub no_selection: &'static str,
    pub pick_hint: &'static str,
    pub layout: &'static str,
    pub appearance: &'static str,
    pub bounds: &'static str,
    pub content: &'static str,
    pub background: &'static str,
    pub border: &'static str,
    pub opacity: &'static str,
    pub tools: &'static str,
    pub toggle_inspector: &'static str,
    pub pick_element: &'static str,
    pub opacity_down: &'static str,
    pub opacity_up: &'static str,
    pub copy_selection: &'static str,
    pub copy_source: &'static str,
    pub reset_styles: &'static str,
    pub open_logs: &'static str,
    pub refresh_windows: &'static str,
    pub clear_history: &'static str,
    pub copy_path: &'static str,
    pub open_current_log: &'static str,
    pub copy_console: &'static str,
    pub live_style: &'static str,
    pub clear_background: &'static str,
    pub inspector_state: &'static str,
    pub selection: &'static str,
    pub selection_locked: &'static str,
    pub selection_empty: &'static str,
    pub frame_time: &'static str,
    pub render_time: &'static str,
    pub frame_ms: &'static str,
    pub render_ms: &'static str,
    pub render_avg_ms: &'static str,
    pub console: &'static str,
    pub console_updated: &'static str,
    pub console_not_updated: &'static str,
    pub console_empty: &'static str,
    pub stall_monitor: &'static str,
    pub no_stall_events: &'static str,
    pub source_unavailable: &'static str,
    pub copied: &'static str,
    pub opened: &'static str,
    pub refreshed: &'static str,
    pub history_cleared: &'static str,
    pub styles_reset: &'static str,
    pub unknown: &'static str,
    pub none: &'static str,
}

impl DebugCopy {
    pub open spec fn chinese() -> Self {
        DebugCopy {
            devtools: "开发工具",
            subtitle: "元素查看、实时样式、性能分析与日志控制台",
            overview: "概览",
            elements: "元素",
            performance: "性能",
            logs: "控制台",
            navigator: "导航",
            explorer: "元素树",
            selected_node: "当前节点",
            recent_nodes: "最近选中",
            recent_nodes_hint: "点击历史项可重新同步当前检查目标。",
            no_history: "暂无历史记录",
            actions: "操作",
            paths: "路径",
            styles: "样式",
            metrics: "盒模型",
            log_source: "日志源",
            latest_log: "latest.log",
            stall_log: "ui_foreground_stall.log",
            console_filters: "级别过滤",
            filter_all: "全部",
            filter_errors: "错误",
            filter_warnings: "警告",
            filter_info: "信息",
            filter_debug: "调试",
            filter_trace: "追踪",
            runtime: "运行时",
            inspector: "检查器",
            enabled: "启用",
            picking: "拾取中",
            source: "来源",
            window: "主窗口",
            debug_window: "调试窗口",
            fps: "帧率",
            app_version: "应用版本",
            executable: "程序路径",
            exe_size: "程序大小",
            updates: "更新状态",
            element_viewer: "元素查看器",
            no_selection: "未选中元素",
            pick_hint: "点击“拾取元素”后，到主窗口选择一个组件。",
            layout: "布局",
            appearance: "外观",
            bounds: "边界",
            content: "内容区",
            background: "背景",
            border: "边框",
            opacity: "透明度",
            tools: "工具",
            toggle_inspector: "切换检查器",
            pick_element: "拾取元素",
            opacity_down: "降低透明度",
            opacity_up: "提高透明度",
            copy_selection: "复制选中信息",
            copy_source: "复制源码位置",
            reset_styles: "重置样式",
            open_logs: "打开日志目录",
            refresh_windows: "刷新窗口",
            clear_history: "清空历史",
            copy_path: "复制路径",
            open_current_log: "打开当前日志",
            copy_console: "复制日志内容",
            live_style: "实时样式",
            clear_background: "清空背景",
            inspector_state: "检查器状态",
            selection: "选中状态",
            selection_locked: "已锁定",
            selection_empty: "空",
            frame_time: "帧时间",
            render_time: "渲染时间",
            frame_ms: "帧耗时",
            render_ms: "渲染耗时",
            render_avg_ms: "平均渲染耗时",
            console: "日志控制台",
            console_updated: "最近更新于 {ms}ms 前",
            console_not_updated: "尚未更新",
            console_empty: "当前没有可显示的日志输出。",
            stall_monitor: "卡顿监控",
            no_stall_events: "当前没有记录到 UI 前台卡顿事件。",
            source_unavailable: "无法获取源码位置",
            copied: "已复制",
            opened: "已打开",
            refreshed: "已刷新窗口",
            history_cleared: "已清空历史记录",
            styles_reset: "已重置选中元素样式",
            unknown: "未知",
            none: "无",
        }
    }

    pub open spec fn english() -> Self {
        DebugCopy {
            devtools: "DevTools",
            subtitle: "Element viewer, live styles, performance and console",
            overview: "Overview",
            elements: "Elements",
            performance: "Performance",
            logs: "Console",
            navigator: "Navigation",
            explorer: "Explorer",
            selected_node: "Selected Node",
            recent_nodes: "Recent Picks",
            recent_nodes_hint: "Click a history item to sync the inspector target again.",
            no_history: "No recent inspected elements",
            actions: "Actions",
            paths: "Paths",
            styles: "Styles",
            metrics: "Box Model",
            log_source: "Log Source",
            latest_log: "latest.log",
            stall_log: "ui_foreground_stall.log",
            console_filters: "Level Filters",
            filter_all: "All",
            filter_errors: "Errors",
            filter_warnings: "Warnings",
            filter_info: "Info",
            filter_debug: "Debug",
            filter_trace: "Trace",
            runtime: "Runtime",
            inspector: "Inspector",
            enabled: "Enabled",
            picking: "Picking",
            source: "Source",
            window: "Main Window",
            debug_window: "Debug Window",
            fps: "FPS",
            app_version: "App Version",
            executable: "Executable",
            exe_size: "Executable Size",
            updates: "Updates",
            element_viewer: "Element Viewer",
            no_selection: "No element selected",
            pick_hint: "Click `Pick Element` and choose a widget in the main window.",
            layout: "Layout",
            appearance: "Appearance",
            bounds: "Bounds",
            content: "Content",
            background: "Background",
            border: "Border",
            opacity: "Opacity",
            tools: "Tools",
            toggle_inspector: "Toggle Inspector",
            pick_element: "Pick Element",
            opacity_down: "Opacity -",
            opacity_up: "Opacity +",
            copy_selection: "Copy Selection",
            copy_source: "Copy Source",
            reset_styles: "Reset Styles",
            open_logs: "Open Logs",
            refresh_windows: "Refresh Windows",
            clear_history: "Clear History",
            copy_path: "Copy Path",
            open_current_log: "Open Current Log",
            copy_console: "Copy Console",
            live_style: "Live Style",
            clear_background: "Clear Background",
            inspector_state: "Inspector State",
            selection: "Selection",
            selection_locked: "Locked",
            selection_empty: "Empty",
            frame_time: "Frame Time",
            render_time: "Render Time",
            frame_ms: "Frame ms",
            render_ms: "Render ms",
            render_avg_ms: "Avg render ms",
            console: "Console",
            console_updated: "Updated {ms}ms ago",
            console_not_updated: "Not updated",
            console_empty: "No log output available.",
            stall_monitor: "Stall Monitor",
            no_stall_events: "No UI foreground stall has been recorded.",
            source_unavailable: "Source unavailable",
            copied: "Copied",
            opened: "Opened",
            refreshed: "Windows refreshed",
            history_cleared: "History cleared",
            styles_reset: "Selected element styles reset",
            unknown: "Unknown",
            none: "None",
        }
    }

    /// The text for the interface language: Chinese for both Chinese
    /// locales, English for every other.
    pub fn from_locale(locale: Locale) -> (r: Self)
        ensures
            r == (if uses_chinese_text(locale) { DebugCopy::chinese() } else { DebugCopy::english() }),
    {
        match locale {
            Locale::ZhCn | Locale::ZhTw => DebugCopy {
                devtools: "开发工具",
                subtitle: "元素查看、实时样式、性能分析与日志控制台",
                overview: "概览",
                elements: "元素",
                performance: "性能",
                logs: "控制台",
                navigator: "导航",
                explorer: "元素树",
                selected_node: "当前节点",
                recent_nodes: "最近选中",
                recent_nodes_hint: "点击历史项可重新同步当前检查目标。",
                no_history: "暂无历史记录",
                actions: "操作",
                paths: "路径",
                styles: "样式",
                metrics: "盒模型",
                log_source: "日志源",
                latest_log: "latest.log",
                stall_log: "ui_foreground_stall.log",
                console_filters: "级别过滤",
                filter_all: "全部",
                filter_errors: "错误",
                filter_warnings: "警告",
                filter_info: "信息",
                filter_debug: "调试",
                filter_trace: "追踪",
                runtime: "运行时",
                inspector: "检查器",
                enabled: "启用",
                picking: "拾取中",
                source: "来源",
                window: "主窗口",
                debug_window: "调试窗口",
                fps: "帧率",
                app_version: "应用版本",
                executable: "程序路径",
                exe_size: "程序大小",
                updates: "更新状态",
                element_viewer: "元素查看器",
                no_selection: "未选中元素",
                pick_hint: "点击“拾取元素”后，到主窗口选择一个组件。",
                layout: "布局",
                appearance: "外观",
                bounds: "边界",
                content: "内容区",
                background: "背景",
                border: "边框",
                opacity: "透明度",
                tools: "工具",
                toggle_inspector: "切换检查器",
                pick_element: "拾取元素",
                opacity_down: "降低透明度",
                opacity_up: "提高透明度",
                copy_selection: "复制选中信息",
                copy_source: "复制源码位置",
                reset_styles: "重置样式",
                open_logs: "打开日志目录",
                refresh_windows: "刷新窗口",
                clear_history: "清空历史",
                copy_path: "复制路径",
                open_current_log: "打开当前日志",
                copy_console: "复制日志内容",
                live_style: "实时样式",
                clear_background: "清空背景",
                inspector_state: "检查器状态",
                selection: "选中状态",
                selection_locked: "已锁定",
                selection_empty: "空",
                frame_time: "帧时间",
                render_time: "渲染时间",
                frame_ms: "帧耗时",
                render_ms: "渲染耗时",
                render_avg_ms: "平均渲染耗时",
                console: "日志控制台",
                console_updated: "最近更新于 {ms}ms 前",
                console_not_updated: "尚未更新",
                console_empty: "当前没有可显示的日志输出。",
                stall_monitor: "卡顿监控",
                no_stall_events: "当前没有记录到 UI 前台卡顿事件。",
                source_unavailable: "无法获取源码位置",
                copied: "已复制",
                opened: "已打开",
                refreshed: "已刷新窗口",
                history_cleared: "已清空历史记录",
                styles_reset: "已重置选中元素样式",
                unknown: "未知",
                none: "无",
            },
            _ => DebugCopy {
                devtools: "DevTools",
                subtitle: "Element viewer, live styles, performance and console",
                overview: "Overview",
                elements: "Elements",
                performance: "Performance",
                logs: "Console",
                navigator: "Navigation",
                explorer: "Explorer",
                selected_node: "Selected Node",
                recent_nodes: "Recent Picks",
                recent_nodes_hint: "Click a history item to sync the inspector target again.",
                no_history: "No recent inspected elements",
                actions: "Actions",
                paths: "Paths",
                styles: "Styles",
                metrics: "Box Model",
                log_source: "Log Source",
                latest_log: "latest.log",
                stall_log: "ui_foreground_stall.log",
                console_filters: "Level Filters",
                filter_all: "All",
                filter_errors: "Errors",
                filter_warnings: "Warnings",
                filter_info: "Info",
                filter_debug: "Debug",
                filter_trace: "Trace",
                runtime: "Runtime",
                inspector: "Inspector",
                enabled: "Enabled",
                picking: "Picking",
                source: "Source",
                window: "Main Window",
                debug_window: "Debug Window",
                fps: "FPS",
                app_version: "App Version",
                executable: "Executable",
                exe_size: "Executable Size",
                updates: "Updates",
                element_viewer: "Element Viewer",
                no_selection: "No element selected",
                pick_hint: "Click `Pick Element` and choose a widget in the main window.",
                layout: "Layout",
                appearance: "Appearance",
                bounds: "Bounds",
                content: "Content",
                background: "Background",
                border: "Border",
                opacity: "Opacity",
                tools: "Tools",
                toggle_inspector: "Toggle Inspector",
                pick_element: "Pick Element",
                opacity_down: "Opacity -",
                opacity_up: "Opacity +",
                copy_selection: "Copy Selection",
                copy_source: "Copy Source",
                reset_styles: "Reset Styles",
                open_logs: "Open Logs",
                refresh_windows: "Refresh Windows",
                clear_history: "Clear History",
                copy_path: "Copy Path",
                open_current_log: "Open Current Log",
                copy_console: "Copy Console",
                live_style: "Live Style",
                clear_background: "Clear Background",
                inspector_state: "Inspector State",
                selection: "Selection",
                selection_locked: "Locked",
                selection_empty: "Empty",
                frame_time: "Frame Time",
                render_time: "Render Time",
                frame_ms: "Frame ms",
                render_ms: "Render ms",
                render_avg_ms: "Avg render ms",
                console: "Console",
                console_updated: "Updated {ms}ms ago",
                console_not_updated: "Not updated",
                console_empty: "No log output available.",
                stall_monitor: "Stall Monitor",
                no_stall_events: "No UI foreground stall has been recorded.",
                source_unavailable: "Source unavailable",
                copied: "Copied",
                opened: "Opened",
                refreshed: "Windows refreshed",
                history_cleared: "History cleared",
                styles_reset: "Selected element styles reset",
                unknown: "Unknown",
                none: "None",
            },
        }
    }
}

/// Labels of the GUI visualisation panel.
#[derive(Clone, Copy, Debug)]
pub struct VisualDebugCopy {
    pub title: &'static str,
    pub subtitle: &'static str,
    pub flash_surface_updates: &'static str,
    pub flash_surface_updates_desc: &'static str,
    pub show_layout_bounds: &'static str,
    pub show_layout_bounds_desc: &'static str,
    pub legend: &'static str,
}

impl VisualDebugCopy {
    pub open spec fn chinese() -> Self {
        VisualDebugCopy {
            title: "GUI 可视化",
            subtitle: "用于定位无效重绘、布局和剪辑问题。",
            flash_surface_updates: "显示面更新",
            flash_surface_updates_desc: "主窗口产生新的 surface 帧时，让整个窗口短暂闪烁。",
            show_layout_bounds: "显示布局边界",
            show_layout_bounds_desc: "显示 margin、border、padding、content 与 overflow clip 边界。",
            legend: "橙 margin · 蓝 border · 绿 padding · 紫 content · 红 clip",
        }
    }

    pub open spec fn english() -> Self {
        VisualDebugCopy {
            title: "GUI Visualization",
            subtitle: "Diagnose unnecessary repaints, layout and clipping issues.",
            flash_surface_updates: "Flash Surface Updates",
            flash_surface_updates_desc: "Flash the main window whenever GPUI paints a new surface frame.",
            show_layout_bounds: "Show Layout Bounds",
            show_layout_bounds_desc: "Show margin, border, padding, content and overflow clip bounds.",
            legend: "orange margin · blue border · green padding · purple content · red clip",
        }
    }

    /// The text for the interface language: Chinese for both Chinese
    /// locales, English for every other.
    pub fn from_locale(locale: Locale) -> (r: Self)
        ensures
            r == (if uses_chinese_text(locale) { VisualDebugCopy::chinese() } else { VisualDebugCopy::english() }),
    {
        match locale {
            Locale::ZhCn | Locale::ZhTw => VisualDebugCopy {
                title: "GUI 可视化",
                subtitle: "用于定位无效重绘、布局和剪辑问题。",
                flash_surface_updates: "显示面更新",
                flash_surface_updates_desc: "主窗口产生新的 surface 帧时，让整个窗口短暂闪烁。",
                show_layout_bounds: "显示布局边界",
                show_layout_bounds_desc: "显示 margin、border、padding、content 与 overflow clip 边界。",
                legend: "橙 margin · 蓝 border · 绿 padding · 紫 content · 红 clip",
            },
            _ => VisualDebugCopy {
                title: "GUI Visualization",
                subtitle: "Diagnose unnecessary repaints, layout and clipping issues.",
                flash_surface_updates: "Flash Surface Updates",
                flash_surface_updates_desc: "Flash the main window whenever GPUI paints a new surface frame.",
                show_layout_bounds: "Show Layout Bounds",
                show_layout_bounds_desc: "Show margin, border, padding, content and overflow clip bounds.",
                legend: "orange margin · blue border · green padding · purple content · red clip",
            },
        }
    }
}

} // verus!
