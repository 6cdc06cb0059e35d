//! Interface texts in English and Spanish, looked up by key.
use vstd::prelude::*;

use crate::text::str_eq;

verus! {

/// The interface language.
#[derive(Clone, Copy, PartialEq, Eq, Debug, Structural)]
pub enum Language {
    En,
    Es,
}

impl Default for Language {
    fn default() -> (r: Language)
        ensures
            r == Language::Es,
    {
        Language::Es
    }
}

/// Number of entries in the translation table.
pub const TRANSLATION_COUNT: usize = 95;

/// Entry `i` of the translation table: its key, its English text and its
/// Spanish text.
pub open spec fn translation(i: int) -> (&'static str, &'static str, &'static str) {
    if i == 0 {
        ("tab_ultradian", "🍅 Ultradian Timer", "🍅 Temporizador Ultradiano")
    } else if i == 1 {
        ("ultradian_project", "Ultradian", "Ultradian")
    } else if i == 2 {
        ("tab_tracker", "⏱ Time Tracker", "⏱ Seguimiento")
    } else if i == 3 {
        ("tab_tasks", "📋 Tasks", "📋 Pendientes")
    } else if i == 4 {
        ("tab_dashboard", "📊 Dashboard", "📊 Dashboard")
    } else if i == 5 {
        ("tab_settings", "⚙ Settings", "⚙ Configuración")
    } else if i == 6 {
        ("ultradian_paused", "(PAUSED)", "(PAUSADO)")
    } else if i == 7 {
        ("ultradian_idle", "WAITING TO START", "ESPERANDO INICIO")
    } else if i == 8 {
        ("ultradian_work", "DEEP WORK", "TRABAJO PROFUNDO")
    } else if i == 9 {
        ("ultradian_help_start", "[Enter] or [Space] to Start", "[Enter] o [Espacio] para Iniciar")
    } else if i == 10 {
        ("ultradian_help_pause", "[Space] Pause/Resume | [R] Restart phase", "[Espacio] Pausa/Reanudar | [R] Reiniciar fase")
    } else if i == 11 {
        ("new_project", "New Project:", "Nuevo Proyecto:")
    } else if i == 12 {
        ("create", "Create", "Crear")
    } else if i == 13 {
        ("your_projects", "Your Projects", "Tus Proyectos")
    } else if i == 14 {
        ("export_excel", "📥 Export to Excel (.xlsx)", "📥 Exportar a Excel (.xlsx)")
    } else if i == 15 {
        ("new_work_session", "New Work Session", "Nueva Sesión de Trabajo")
    } else if i == 16 {
        ("name", "Name:", "Nombre:")
    } else if i == 17 {
        ("start", "▶ Start", "▶ Empezar")
    } else if i == 18 {
        ("pause", "⏸ Pause", "⏸ Pausar")
    } else if i == 19 {
        ("finish_save", "⏹ Finish & Save", "⏹ Finalizar y Guardar")
    } else if i == 20 {
        ("session_history", "Session History", "Historial de Sesiones")
    } else if i == 21 {
        ("date_unix", "Date (Unix)", "Fecha (Unix)")
    } else if i == 22 {
        ("exported_to", "Exported to", "Exportado a")
    } else if i == 23 {
        ("error_export", "Error exporting", "Error al exportar")
    } else if i == 24 {
        ("continuing_session", "Continuing session:", "Continuando sesión:")
    } else if i == 25 {
        ("session_label", "Session", "Sesión")
    } else if i == 26 {
        ("cycle_label", "Cycle", "Ciclo")
    } else if i == 27 {
        ("save", "Save", "Guardar")
    } else if i == 28 {
        ("cancel", "Cancel", "Cancelar")
    } else if i == 29 {
        ("continue", "Continue", "Continuar")
    } else if i == 30 {
        ("total_duration", "Total Duration:", "Duración Total:")
    } else if i == 31 {
        ("sub_sessions", "sub-sessions", "sub-sesiones")
    } else if i == 32 {
        ("delete_session_confirm", "Are you sure you want to delete this session?", "¿Estás seguro de que deseas eliminar esta sesión?")
    } else if i == 33 {
        ("delete_project_confirm", "Are you sure you want to delete this project?", "¿Estás seguro de que deseas eliminar este proyecto?")
    } else if i == 34 {
        ("yes_delete", "Yes, Delete", "Sí, Eliminar")
    } else if i == 35 {
        ("export_tasks", "📤 Export Tasks", "📤 Exportar Pendientes")
    } else if i == 36 {
        ("import_tasks", "📥 Import Tasks", "📥 Importar Pendientes")
    } else if i == 37 {
        ("error_open_file", "Error opening file", "Error al abrir archivo")
    } else if i == 38 {
        ("sheet_not_found", "Sheet 'Pendientes' not found", "Hoja 'Pendientes' no encontrada")
    } else if i == 39 {
        ("imported_tasks", "tasks imported", "tareas importadas")
    } else if i == 40 {
        ("excel_header_name", "Name", "Nombre")
    } else if i == 41 {
        ("excel_header_description", "Description", "Descripción")
    } else if i == 42 {
        ("excel_header_project", "Project", "Proyecto")
    } else if i == 43 {
        ("excel_header_completed", "Completed", "Completada")
    } else if i == 44 {
        ("excel_header_priority", "Priority", "Prioridad")
    } else if i == 45 {
        ("excel_header_tags", "Tags", "Etiquetas")
    } else if i == 46 {
        ("excel_header_deadline", "Deadline", "Fecha Límite")
    } else if i == 47 {
        ("new_task", "New Task", "Nuevo Pendiente")
    } else if i == 48 {
        ("priority", "Priority:", "Prioridad:")
    } else if i == 49 {
        ("tags_comma", "Tags (comma separated):", "Tags (coma separados):")
    } else if i == 50 {
        ("deadline", "Deadline:", "Fecha límite:")
    } else if i == 51 {
        ("description", "Description:", "Descripción:")
    } else if i == 52 {
        ("create_task", "Create Task", "Crear Tarea")
    } else if i == 53 {
        ("todo_list", "To-Do List", "Lista de Pendientes")
    } else if i == 54 {
        ("high", "High", "Alta")
    } else if i == 55 {
        ("medium", "Medium", "Media")
    } else if i == 56 {
        ("low", "Low", "Baja")
    } else if i == 57 {
        ("dashboard_hours_project", "Dashboard - Hours per Project", "Dashboard - Horas por Proyecto")
    } else if i == 58 {
        ("chart_projects", "Projects", "Proyectos")
    } else if i == 59 {
        ("settings", "Settings", "Configuración")
    } else if i == 60 {
        ("deep_work_minutes", "Deep Work Minutes:", "Minutos Trabajo Profundo:")
    } else if i == 61 {
        ("rest_minutes", "Rest Minutes:", "Minutos Descanso:")
    } else if i == 62 {
        ("project_label", "Project:", "Proyecto:")
    } else if i == 63 {
        ("delete_confirm_title", "Confirm Deletion", "Confirmar Eliminación")
    } else if i == 64 {
        ("empty_state_tracker", "Select a project on the left or create a new one.", "Selecciona un proyecto a la izquierda o crea uno nuevo.")
    } else if i == 65 {
        ("project_optional", "Project (Optional):", "Proyecto (Opcional):")
    } else if i == 66 {
        ("none", "None", "Ninguno")
    } else if i == 67 {
        ("work_on_this", "⏱ Work on this", "⏱ Trabajar en esto")
    } else if i == 68 {
        ("task_session_prefix", "Task:", "Tarea:")
    } else if i == 69 {
        ("notification_rest_title", "Rest Time", "Tiempo de Descanso")
    } else if i == 70 {
        ("notification_rest_body", "Time to rest!", "¡A descansar!")
    } else if i == 71 {
        ("notification_work_title", "Work Time", "Tiempo de Trabajo")
    } else if i == 72 {
        ("notification_work_body", "Back to work.", "De vuelta al trabajo.")
    } else if i == 73 {
        ("empty_state_dashboard", "No projects yet. Go to Tracker to create one.", "No hay proyectos aún. Ve a Seguimiento para crear uno.")
    } else if i == 74 {
        ("empty_state_tasks", "No tasks yet. Create one below.", "No hay pendientes. Crea uno nuevo abajo.")
    } else if i == 75 {
        ("error_empty_name", "Name cannot be empty", "El nombre no puede estar vacío")
    } else if i == 76 {
        ("clear_search", "✕", "✕")
    } else if i == 77 {
        ("edit_tooltip", "Edit", "Editar")
    } else if i == 78 {
        ("delete_tooltip", "Delete", "Eliminar")
    } else if i == 79 {
        ("hours_label", "Hours", "Horas")
    } else if i == 80 {
        ("today_total", "Today", "Hoy")
    } else if i == 81 {
        ("total_all_time", "Total", "Total")
    } else if i == 82 {
        ("total_sessions", "Sessions", "Sesiones")
    } else if i == 83 {
        ("skip_rest", "Skip Rest → Work", "Saltar Descanso → Trabajo")
    } else if i == 84 {
        ("skip_rest_shortcut", "Press [S] to skip", "Presiona [S] para saltar")
    } else if i == 85 {
        ("hide_completed", "Hide completed", "Ocultar completadas")
    } else if i == 86 {
        ("settings_screen", "Screen", "Pantalla")
    } else if i == 87 {
        ("screen_dim_during_rest", "Dim screen during rest", "Reducir brillo durante descanso")
    } else if i == 88 {
        ("screen_lock_during_rest", "Lock screen during rest", "Bloquear pantalla durante descanso")
    } else if i == 89 {
        ("breathe_in", "Breathe in...", "Inhala...")
    } else if i == 90 {
        ("breathe_out", "Breathe out...", "Exhala...")
    } else if i == 91 {
        ("rest_message", "Rest your eyes. Move your body.", "Descansa la vista. Mueve el cuerpo.")
    } else if i == 92 {
        ("screen_available", "Available", "Disponible")
    } else if i == 93 {
        ("screen_not_available", "Not available", "No disponible")
    } else if i == 94 {
        ("wayland_warning", "Wayland detected: install brightnessctl for dim support", "Wayland detectado: instala brightnessctl para atenuar pantalla")
    } else {
        ("", "", "")
    }
}

/// The first index `j >= i` of the table whose key is `key`, or -1.
pub open spec fn key_index_from(key: Seq<char>, i: int) -> int
    decreases TRANSLATION_COUNT - i,
{
    if i < 0 || i >= TRANSLATION_COUNT {
        -1
    } else if translation(i).0@ == key {
        i
    } else {
        key_index_from(key, i + 1)
    }
}

/// The index of the first table entry with this key, or -1 when none has it.
pub open spec fn key_index(key: Seq<char>) -> int {
    key_index_from(key, 0)
}

/// The text of `key` in `lang`: the entry's text, or the empty text for a key
/// that the table does not hold.
pub open spec fn translate(lang: Language, key: Seq<char>) -> Seq<char> {
    let i = key_index(key);
    if i < 0 {
        Seq::empty()
    } else {
        match lang {
            Language::En => translation(i).1@,
            Language::Es => translation(i).2@,
        }
    }
}

/// Entry `i` of the translation table, `None` past its end.
pub fn translation_entry(i: usize) -> (r: Option<(&'static str, &'static str, &'static str)>)
    ensures
        i < TRANSLATION_COUNT ==> r == Some(translation(i as int)),
        i >= TRANSLATION_COUNT ==> r is None,
{
    match i {
        0 => Some(("tab_ultradian", "🍅 Ultradian Timer", "🍅 Temporizador Ultradiano")),
        1 => Some(("ultradian_project", "Ultradian", "Ultradian")),
        2 => Some(("tab_tracker", "⏱ Time Tracker", "⏱ Seguimiento")),
        3 => Some(("tab_tasks", "📋 Tasks", "📋 Pendientes")),
        4 => Some(("tab_dashboard", "📊 Dashboard", "📊 Dashboard")),
        5 => Some(("tab_settings", "⚙ Settings", "⚙ Configuración")),
        6 => Some(("ultradian_paused", "(PAUSED)", "(PAUSADO)")),
        7 => Some(("ultradian_idle", "WAITING TO START", "ESPERANDO INICIO")),
        8 => Some(("ultradian_work", "DEEP WORK", "TRABAJO PROFUNDO")),
        9 => Some(("ultradian_help_start", "[Enter] or [Space] to Start", "[Enter] o [Espacio] para Iniciar")),
        10 => Some(("ultradian_help_pause", "[Space] Pause/Resume | [R] Restart phase", "[Espacio] Pausa/Reanudar | [R] Reiniciar fase")),
        11 => Some(("new_project", "New Project:", "Nuevo Proyecto:")),
        12 => Some(("create", "Create", "Crear")),
        13 => Some(("your_projects", "Your Projects", "Tus Proyectos")),
        14 => Some(("export_excel", "📥 Export to Excel (.xlsx)", "📥 Exportar a Excel (.xlsx)")),
        15 => Some(("new_work_session", "New Work Session", "Nueva Sesión de Trabajo")),
        16 => Some(("name", "Name:", "Nombre:")),
        17 => Some(("start", "▶ Start", "▶ Empezar")),
        18 => Some(("pause", "⏸ Pause", "⏸ Pausar")),
        19 => Some(("finish_save", "⏹ Finish & Save", "⏹ Finalizar y Guardar")),
        20 => Some(("session_history", "Session History", "Historial de Sesiones")),
        21 => Some(("date_unix", "Date (Unix)", "Fecha (Unix)")),
        22 => Some(("exported_to", "Exported to", "Exportado a")),
        23 => Some(("error_export", "Error exporting", "Error al exportar")),
        24 => Some(("continuing_session", "Continuing session:", "Continuando sesión:")),
        25 => Some(("session_label", "Session", "Sesión")),
        26 => Some(("cycle_label", "Cycle", "Ciclo")),
        27 => Some(("save", "Save", "Guardar")),
        28 => Some(("cancel", "Cancel", "Cancelar")),
        29 => Some(("continue", "Continue", "Continuar")),
        30 => Some(("total_duration", "Total Duration:", "Duración Total:")),
        31 => Some(("sub_sessions", "sub-sessions", "sub-sesiones")),
        32 => Some(("delete_session_confirm", "Are you sure you want to delete this session?", "¿Estás seguro de que deseas eliminar esta sesión?")),
        33 => Some(("delete_project_confirm", "Are you sure you want to delete this project?", "¿Estás seguro de que deseas eliminar este proyecto?")),
        34 => Some(("yes_delete", "Yes, Delete", "Sí, Eliminar")),
        35 => Some(("export_tasks", "📤 Export Tasks", "📤 Exportar Pendientes")),
        36 => Some(("import_tasks", "📥 Import Tasks", "📥 Importar Pendientes")),
        37 => Some(("error_open_file", "Error opening file", "Error al abrir archivo")),
        38 => Some(("sheet_not_found", "Sheet 'Pendientes' not found", "Hoja 'Pendientes' no encontrada")),
        39 => Some(("imported_tasks", "tasks imported", "tareas importadas")),
        40 => Some(("excel_header_name", "Name", "Nombre")),
        41 => Some(("excel_header_description", "Description", "Descripción")),
        42 => Some(("excel_header_project", "Project", "Proyecto")),
        43 => Some(("excel_header_completed", "Completed", "Completada")),
        44 => Some(("excel_header_priority", "Priority", "Prioridad")),
        45 => Some(("excel_header_tags", "Tags", "Etiquetas")),
        46 => Some(("excel_header_deadline", "Deadline", "Fecha Límite")),
        47 => Some(("new_task", "New Task", "Nuevo Pendiente")),
        48 => Some(("priority", "Priority:", "Prioridad:")),
        49 => Some(("tags_comma", "Tags (comma separated):", "Tags (coma separados):")),
        50 => Some(("deadline", "Deadline:", "Fecha límite:")),
        51 => Some(("description", "Description:", "Descripción:")),
        52 => Some(("create_task", "Create Task", "Crear Tarea")),
        53 => Some(("todo_list", "To-Do List", "Lista de Pendientes")),
        54 => Some(("high", "High", "Alta")),
        55 => Some(("medium", "Medium", "Media")),
        56 => Some(("low", "Low", "Baja")),
        57 => Some(("dashboard_hours_project", "Dashboard - Hours per Project", "Dashboard - Horas por Proyecto")),
        58 => Some(("chart_projects", "Projects", "Proyectos")),
        59 => Some(("settings", "Settings", "Configuración")),
        60 => Some(("deep_work_minutes", "Deep Work Minutes:", "Minutos Trabajo Profundo:")),
        61 => Some(("rest_minutes", "Rest Minutes:", "Minutos Descanso:")),
        62 => Some(("project_label", "Project:", "Proyecto:")),
        63 => Some(("delete_confirm_title", "Confirm Deletion", "Confirmar Eliminación")),
        64 => Some(("empty_state_tracker", "Select a project on the left or create a new one.", "Selecciona un proyecto a la izquierda o crea uno nuevo.")),
        65 => Some(("project_optional", "Project (Optional):", "Proyecto (Opcional):")),
        66 => Some(("none", "None", "Ninguno")),
        67 => Some(("work_on_this", "⏱ Work on this", "⏱ Trabajar en esto")),
        68 => Some(("task_session_prefix", "Task:", "Tarea:")),
        69 => Some(("notification_rest_title", "Rest Time", "Tiempo de Descanso")),
        70 => Some(("notification_rest_body", "Time to rest!", "¡A descansar!")),
        71 => Some(("notification_work_title", "Work Time", "Tiempo de Trabajo")),
        72 => Some(("notification_work_body", "Back to work.", "De vuelta al trabajo.")),
        73 => Some(("empty_state_dashboard", "No projects yet. Go to Tracker to create one.", "No hay proyectos aún. Ve a Seguimiento para crear uno.")),
        74 => Some(("empty_state_tasks", "No tasks yet. Create one below.", "No hay pendientes. Crea uno nuevo abajo.")),
        75 => Some(("error_empty_name", "Name cannot be empty", "El nombre no puede estar vacío")),
        76 => Some(("clear_search", "✕", "✕")),
        77 => Some(("edit_tooltip", "Edit", "Editar")),
        78 => Some(("delete_tooltip", "Delete", "Eliminar")),
        79 => Some(("hours_label", "Hours", "Horas")),
        80 => Some(("today_total", "Today", "Hoy")),
        81 => Some(("total_all_time", "Total", "Total")),
        82 => Some(("total_sessions", "Sessions", "Sesiones")),
        83 => Some(("skip_rest", "Skip Rest → Work", "Saltar Descanso → Trabajo")),
        84 => Some(("skip_rest_shortcut", "Press [S] to skip", "Presiona [S] para saltar")),
        85 => Some(("hide_completed", "Hide completed", "Ocultar completadas")),
        86 => Some(("settings_screen", "Screen", "Pantalla")),
        87 => Some(("screen_dim_during_rest", "Dim screen during rest", "Reducir brillo durante descanso")),
        88 => Some(("screen_lock_during_rest", "Lock screen during rest", "Bloquear pantalla durante descanso")),
        89 => Some(("breathe_in", "Breathe in...", "Inhala...")),
        90 => Some(("breathe_out", "Breathe out...", "Exhala...")),
        91 => Some(("rest_message", "Rest your eyes. Move your body.", "Descansa la vista. Mueve el cuerpo.")),
        92 => Some(("screen_available", "Available", "Disponible")),
        93 => Some(("screen_not_available", "Not available", "No disponible")),
        94 => Some(("wayland_warning", "Wayland detected: install brightnessctl for dim support", "Wayland detectado: instala brightnessctl para atenuar pantalla")),
        _ => None,
    }
}

proof fn lemma_key_index_from_bounds(key: Seq<char>, i: int)
    ensures
        key_index_from(key, i) == -1 || (i <= key_index_from(key, i) < TRANSLATION_COUNT
            && translation(key_index_from(key, i)).0@ == key),
    decreases TRANSLATION_COUNT - i,
{
    if 0 <= i < TRANSLATION_COUNT && translation(i).0@ != key {
        lemma_key_index_from_bounds(key, i + 1);
    }
}

/// The text for `key` in `lang`; the empty text for an unknown key.
pub fn t(lang: &Language, key: &str) -> (r: &'static str)
    ensures
        r@ == translate(*lang, key@),
        key_index(key@) < 0 ==> r@.len() == 0,
{
    let mut i: usize = 0;
    while i < TRANSLATION_COUNT
        invariant
            i <= TRANSLATION_COUNT,
            key_index(key@) == key_index_from(key@, i as int),
        decreases TRANSLATION_COUNT - i,
    {
        let entry = translation_entry(i);
        match entry {
            Some((k, en, es)) => {
                if str_eq(k, key) {
                    return match lang {
                        Language::En => en,
                        Language::Es => es,
                    };
                }
            },
            None => {},
        }
        i = i + 1;
    }
    proof {
        reveal_strlit("");
    }
    ""
}

/// Every entry of the table has a non-empty English and Spanish text.
pub proof fn lemma_translations_present()
    ensures
        forall|i: int|
            0 <= i < TRANSLATION_COUNT ==> (#[trigger] translation(i)).1@.len() > 0
                && translation(i).2@.len() > 0,
{
    reveal_strlit("🍅 Ultradian Timer");
    reveal_strlit("🍅 Temporizador Ultradiano");
    reveal_strlit("Ultradian");
    reveal_strlit("Ultradian");
    reveal_strlit("⏱ Time Tracker");
    reveal_strlit("⏱ Seguimiento");
    reveal_strlit("📋 Tasks");
    reveal_strlit("📋 Pendientes");
    reveal_strlit("📊 Dashboard");
    reveal_strlit("📊 Dashboard");
    reveal_strlit("⚙ Settings");
    reveal_strlit("⚙ Configuración");
    reveal_strlit("(PAUSED)");
    reveal_strlit("(PAUSADO)");
    reveal_strlit("WAITING TO START");
    reveal_strlit("ESPERANDO INICIO");
    reveal_strlit("DEEP WORK");
    reveal_strlit("TRABAJO PROFUNDO");
    reveal_strlit("[Enter] or [Space] to Start");
    reveal_strlit("[Enter] o [Espacio] para Iniciar");
    reveal_strlit("[Space] Pause/Resume | [R] Restart phase");
    reveal_strlit("[Espacio] Pausa/Reanudar | [R] Reiniciar fase");
    reveal_strlit("New Project:");
    reveal_strlit("Nuevo Proyecto:");
    reveal_strlit("Create");
    reveal_strlit("Crear");
    reveal_strlit("Your Projects");
    reveal_strlit("Tus Proyectos");
    reveal_strlit("📥 Export to Excel (.xlsx)");
    reveal_strlit("📥 Exportar a Excel (.xlsx)");
    reveal_strlit("New Work Session");
    reveal_strlit("Nueva Sesión de Trabajo");
    reveal_strlit("Name:");
    reveal_strlit("Nombre:");
    reveal_strlit("▶ Start");
    reveal_strlit("▶ Empezar");
    reveal_strlit("⏸ Pause");
    reveal_strlit("⏸ Pausar");
    reveal_strlit("⏹ Finish & Save");
    reveal_strlit("⏹ Finalizar y Guardar");
    reveal_strlit("Session History");
    reveal_strlit("Historial de Sesiones");
    reveal_strlit("Date (Unix)");
    reveal_strlit("Fecha (Unix)");
    reveal_strlit("Exported to");
    reveal_strlit("Exportado a");
    reveal_strlit("Error exporting");
    reveal_strlit("Error al exportar");
    reveal_strlit("Continuing session:");
    reveal_strlit("Continuando sesión:");
    reveal_strlit("Session");
    reveal_strlit("Sesión");
    reveal_strlit("Cycle");
    reveal_strlit("Ciclo");
    reveal_strlit("Save");
    reveal_strlit("Guardar");
    reveal_strlit("Cancel");
    reveal_strlit("Cancelar");
    reveal_strlit("Continue");
    reveal_strlit("Continuar");
    reveal_strlit("Total Duration:");
    reveal_strlit("Duración Total:");
    reveal_strlit("sub-sessions");
    reveal_strlit("sub-sesiones");
    reveal_strlit("Are you sure you want to delete this session?");
    reveal_strlit("¿Estás seguro de que deseas eliminar esta sesión?");
    reveal_strlit("Are you sure you want to delete this project?");
    reveal_strlit("¿Estás seguro de que deseas eliminar este proyecto?");
    reveal_strlit("Yes, Delete");
    reveal_strlit("Sí, Eliminar");
    reveal_strlit("📤 Export Tasks");
    reveal_strlit("📤 Exportar Pendientes");
    reveal_strlit("📥 Import Tasks");
    reveal_strlit("📥 Importar Pendientes");
    reveal_strlit("Error opening file");
    reveal_strlit("Error al abrir archivo");
    reveal_strlit("Sheet 'Pendientes' not found");
    reveal_strlit("Hoja 'Pendientes' no encontrada");
    reveal_strlit("tasks imported");
    reveal_strlit("tareas importadas");
    reveal_strlit("Name");
    reveal_strlit("Nombre");
    reveal_strlit("Description");
    reveal_strlit("Descripción");
    reveal_strlit("Project");
    reveal_strlit("Proyecto");
    reveal_strlit("Completed");
    reveal_strlit("Completada");
    reveal_strlit("Priority");
    reveal_strlit("Prioridad");
    reveal_strlit("Tags");
    reveal_strlit("Etiquetas");
    reveal_strlit("Deadline");
    reveal_strlit("Fecha Límite");
    reveal_strlit("New Task");
    reveal_strlit("Nuevo Pendiente");
    reveal_strlit("Priority:");
    reveal_strlit("Prioridad:");
    reveal_strlit("Tags (comma separated):");
    reveal_strlit("Tags (coma separados):");
    reveal_strlit("Deadline:");
    reveal_strlit("Fecha límite:");
    reveal_strlit("Description:");
    reveal_strlit("Descripción:");
    reveal_strlit("Create Task");
    reveal_strlit("Crear Tarea");
    reveal_strlit("To-Do List");
    reveal_strlit("Lista de Pendientes");
    reveal_strlit("High");
    reveal_strlit("Alta");
    reveal_strlit("Medium");
    reveal_strlit("Media");
    reveal_strlit("Low");
    reveal_strlit("Baja");
    reveal_strlit("Dashboard - Hours per Project");
    reveal_strlit("Dashboard - Horas por Proyecto");
    reveal_strlit("Projects");
    reveal_strlit("Proyectos");
    reveal_strlit("Settings");
    reveal_strlit("Configuración");
    reveal_strlit("Deep Work Minutes:");
    reveal_strlit("Minutos Trabajo Profundo:");
    reveal_strlit("Rest Minutes:");
    reveal_strlit("Minutos Descanso:");
    reveal_strlit("Project:");
    reveal_strlit("Proyecto:");
    reveal_strlit("Confirm Deletion");
    reveal_strlit("Confirmar Eliminación");
    reveal_strlit("Select a project on the left or create a new one.");
    reveal_strlit("Selecciona un proyecto a la izquierda o crea uno nuevo.");
    reveal_strlit("Project (Optional):");
    reveal_strlit("Proyecto (Opcional):");
    reveal_strlit("None");
    reveal_strlit("Ninguno");
    reveal_strlit("⏱ Work on this");
    reveal_strlit("⏱ Trabajar en esto");
    reveal_strlit("Task:");
    reveal_strlit("Tarea:");
    reveal_strlit("Rest Time");
    reveal_strlit("Tiempo de Descanso");
    reveal_strlit("Time to rest!");
    reveal_strlit("¡A descansar!");
    reveal_strlit("Work Time");
    reveal_strlit("Tiempo de Trabajo");
    reveal_strlit("Back to work.");
    reveal_strlit("De vuelta al trabajo.");
    reveal_strlit("No projects yet. Go to Tracker to create one.");
    reveal_strlit("No hay proyectos aún. Ve a Seguimiento para crear uno.");
    reveal_strlit("No tasks yet. Create one below.");
    reveal_strlit("No hay pendientes. Crea uno nuevo abajo.");
    reveal_strlit("Name cannot be empty");
    reveal_strlit("El nombre no puede estar vacío");
    reveal_strlit("✕");
    reveal_strlit("✕");
    reveal_strlit("Edit");
    reveal_strlit("Editar");
    reveal_strlit("Delete");
    reveal_strlit("Eliminar");
    reveal_strlit("Hours");
    reveal_strlit("Horas");
    reveal_strlit("Today");
    reveal_strlit("Hoy");
    reveal_strlit("Total");
    reveal_strlit("Total");
    reveal_strlit("Sessions");
    reveal_strlit("Sesiones");
    reveal_strlit("Skip Rest → Work");
    reveal_strlit("Saltar Descanso → Trabajo");
    reveal_strlit("Press [S] to skip");
    reveal_strlit("Presiona [S] para saltar");
    reveal_strlit("Hide completed");
    reveal_strlit("Ocultar completadas");
    reveal_strlit("Screen");
    reveal_strlit("Pantalla");
    reveal_strlit("Dim screen during rest");
    reveal_strlit("Reducir brillo durante descanso");
    reveal_strlit("Lock screen during rest");
    reveal_strlit("Bloquear pantalla durante descanso");
    reveal_strlit("Breathe in...");
    reveal_strlit("Inhala...");
    reveal_strlit("Breathe out...");
    reveal_strlit("Exhala...");
    reveal_strlit("Rest your eyes. Move your body.");
    reveal_strlit("Descansa la vista. Mueve el cuerpo.");
    reveal_strlit("Available");
    reveal_strlit("Disponible");
    reveal_strlit("Not available");
    reveal_strlit("No disponible");
    reveal_strlit("Wayland detected: install brightnessctl for dim support");
    reveal_strlit("Wayland detectado: instala brightnessctl para atenuar pantalla");
}

/// No entry before index `j` has the key `k`.
pub open spec fn key_absent_before(k: Seq<char>, j: int) -> bool
    decreases j,
{
    j <= 0 || (translation(j - 1).0@ != k && key_absent_before(k, j - 1))
}

/// The keys of the first `n` entries are pairwise different.
pub open spec fn keys_distinct_upto(n: int) -> bool
    decreases n,
{
    n <= 0 || (key_absent_before(translation(n - 1).0@, n - 1) && keys_distinct_upto(n - 1))
}

proof fn lemma_key_absent_before(k: Seq<char>, j: int)
    requires
        key_absent_before(k, j),
    ensures
        forall|i: int| 0 <= i < j ==> (#[trigger] translation(i)).0@ != k,
    decreases j,
{
    if j > 0 {
        lemma_key_absent_before(k, j - 1);
    }
}

proof fn lemma_keys_distinct_upto(n: int)
    requires
        keys_distinct_upto(n),
    ensures
        forall|i: int, j: int|
            0 <= i < j < n ==> (#[trigger] translation(i)).0@ != (#[trigger] translation(j)).0@,
    decreases n,
{
    if n > 0 {
        lemma_keys_distinct_upto(n - 1);
        lemma_key_absent_before(translation(n - 1).0@, n - 1);
    }
}

#[verifier::rlimit(100)]
proof fn lemma_table_keys_distinct()
    ensures
        keys_distinct_upto(TRANSLATION_COUNT as int),
{
    reveal_strlit("tab_ultradian");
    reveal_strlit("ultradian_project");
    reveal_strlit("tab_tracker");
    reveal_strlit("tab_tasks");
    reveal_strlit("tab_dashboard");
    reveal_strlit("tab_settings");
    reveal_strlit("ultradian_paused");
    reveal_strlit("ultradian_idle");
    reveal_strlit("ultradian_work");
    reveal_strlit("ultradian_help_start");
    reveal_strlit("ultradian_help_pause");
    reveal_strlit("new_project");
    reveal_strlit("create");
    reveal_strlit("your_projects");
    reveal_strlit("export_excel");
    reveal_strlit("new_work_session");
    reveal_strlit("name");
    reveal_strlit("start");
    reveal_strlit("pause");
    reveal_strlit("finish_save");
    reveal_strlit("session_history");
    reveal_strlit("date_unix");
    reveal_strlit("exported_to");
    reveal_strlit("error_export");
    reveal_strlit("continuing_session");
    reveal_strlit("session_label");
    reveal_strlit("cycle_label");
    reveal_strlit("save");
    reveal_strlit("cancel");
    reveal_strlit("continue");
    reveal_strlit("total_duration");
    reveal_strlit("sub_sessions");
    reveal_strlit("delete_session_confirm");
    reveal_strlit("delete_project_confirm");
    reveal_strlit("yes_delete");
    reveal_strlit("export_tasks");
    reveal_strlit("import_tasks");
    reveal_strlit("error_open_file");
    reveal_strlit("sheet_not_found");
    reveal_strlit("imported_tasks");
    reveal_strlit("excel_header_name");
    reveal_strlit("excel_header_description");
    reveal_strlit("excel_header_project");
    reveal_strlit("excel_header_completed");
    reveal_strlit("excel_header_priority");
    reveal_strlit("excel_header_tags");
    reveal_strlit("excel_header_deadline");
    reveal_strlit("new_task");
    reveal_strlit("priority");
    reveal_strlit("tags_comma");
    reveal_strlit("deadline");
    reveal_strlit("description");
    reveal_strlit("create_task");
    reveal_strlit("todo_list");
    reveal_strlit("high");
    reveal_strlit("medium");
    reveal_strlit("low");
    reveal_strlit("dashboard_hours_project");
    reveal_strlit("chart_projects");
    reveal_strlit("settings");
    reveal_strlit("deep_work_minutes");
    reveal_strlit("rest_minutes");
    reveal_strlit("project_label");
    reveal_strlit("delete_confirm_title");
    reveal_strlit("empty_state_tracker");
    reveal_strlit("project_optional");
    reveal_strlit("none");
    reveal_strlit("work_on_this");
    reveal_strlit("task_session_prefix");
    reveal_strlit("notification_rest_title");
    reveal_strlit("notification_rest_body");
    reveal_strlit("notification_work_title");
    reveal_strlit("notification_work_body");
    reveal_strlit("empty_state_dashboard");
    reveal_strlit("empty_state_tasks");
    reveal_strlit("error_empty_name");
    reveal_strlit("clear_search");
    reveal_strlit("edit_tooltip");
    reveal_strlit("delete_tooltip");
    reveal_strlit("hours_label");
    reveal_strlit("today_total");
    reveal_strlit("total_all_time");
    reveal_strlit("total_sessions");
    reveal_strlit("skip_rest");
    reveal_strlit("skip_rest_shortcut");
    reveal_strlit("hide_completed");
    reveal_strlit("settings_screen");
    reveal_strlit("screen_dim_during_rest");
    reveal_strlit("screen_lock_during_rest");
    reveal_strlit("breathe_in");
    reveal_strlit("breathe_out");
    reveal_strlit("rest_message");
    reveal_strlit("screen_available");
    reveal_strlit("screen_not_available");
    reveal_strlit("wayland_warning");
    assert("tab_ultradian"@.len() == 13);
    assert("ultradian_project"@.len() == 17);
    assert("tab_tracker"@.len() == 11);
    assert("tab_tasks"@.len() == 9);
    assert("tab_dashboard"@.len() == 13);
    assert("tab_settings"@.len() == 12);
    assert("ultradian_paused"@.len() == 16);
    assert("ultradian_idle"@.len() == 14);
    assert("ultradian_work"@.len() == 14);
    assert("ultradian_help_start"@.len() == 20);
    assert("ultradian_help_pause"@.len() == 20);
    assert("new_project"@.len() == 11);
    assert("create"@.len() == 6);
    assert("your_projects"@.len() == 13);
    assert("export_excel"@.len() == 12);
    assert("new_work_session"@.len() == 16);
    assert("name"@.len() == 4);
    assert("start"@.len() == 5);
    assert("pause"@.len() == 5);
    assert("finish_save"@.len() == 11);
    assert("session_history"@.len() == 15);
    assert("date_unix"@.len() == 9);
    assert("exported_to"@.len() == 11);
    assert("error_export"@.len() == 12);
    assert("continuing_session"@.len() == 18);
    assert("session_label"@.len() == 13);
    assert("cycle_label"@.len() == 11);
    assert("save"@.len() == 4);
    assert("cancel"@.len() == 6);
    assert("continue"@.len() == 8);
    assert("total_duration"@.len() == 14);
    assert("sub_sessions"@.len() == 12);
    assert("delete_session_confirm"@.len() == 22);
    assert("delete_project_confirm"@.len() == 22);
    assert("yes_delete"@.len() == 10);
    assert("export_tasks"@.len() == 12);
    assert("import_tasks"@.len() == 12);
    assert("error_open_file"@.len() == 15);
    assert("sheet_not_found"@.len() == 15);
    assert("imported_tasks"@.len() == 14);
    assert("excel_header_name"@.len() == 17);
    assert("excel_header_description"@.len() == 24);
    assert("excel_header_project"@.len() == 20);
    assert("excel_header_completed"@.len() == 22);
    assert("excel_header_priority"@.len() == 21);
    assert("excel_header_tags"@.len() == 17);
    assert("excel_header_deadline"@.len() == 21);
    assert("new_task"@.len() == 8);
    assert("priority"@.len() == 8);
    assert("tags_comma"@.len() == 10);
    assert("deadline"@.len() == 8);
    assert("description"@.len() == 11);
    assert("create_task"@.len() == 11);
    assert("todo_list"@.len() == 9);
    assert("high"@.len() == 4);
    assert("medium"@.len() == 6);
    assert("low"@.len() == 3);
    assert("dashboard_hours_project"@.len() == 23);
    assert("chart_projects"@.len() == 14);
    assert("settings"@.len() == 8);
    assert("deep_work_minutes"@.len() == 17);
    assert("rest_minutes"@.len() == 12);
    assert("project_label"@.len() == 13);
    assert("delete_confirm_title"@.len() == 20);
    assert("empty_state_tracker"@.len() == 19);
    assert("project_optional"@.len() == 16);
    assert("none"@.len() == 4);
    assert("work_on_this"@.len() == 12);
    assert("task_session_prefix"@.len() == 19);
    assert("notification_rest_title"@.len() == 23);
    assert("notification_rest_body"@.len() == 22);
    assert("notification_work_title"@.len() == 23);
    assert("notification_work_body"@.len() == 22);
    assert("empty_state_dashboard"@.len() == 21);
    assert("empty_state_tasks"@.len() == 17);
    assert("error_empty_name"@.len() == 16);
    assert("clear_search"@.len() == 12);
    assert("edit_tooltip"@.len() == 12);
    assert("delete_tooltip"@.len() == 14);
    assert("hours_label"@.len() == 11);
    assert("today_total"@.len() == 11);
    assert("total_all_time"@.len() == 14);
    assert("total_sessions"@.len() == 14);
    assert("skip_rest"@.len() == 9);
    assert("skip_rest_shortcut"@.len() == 18);
    assert("hide_completed"@.len() == 14);
    assert("settings_screen"@.len() == 15);
    assert("screen_dim_during_rest"@.len() == 22);
    assert("screen_lock_during_rest"@.len() == 23);
    assert("breathe_in"@.len() == 10);
    assert("breathe_out"@.len() == 11);
    assert("rest_message"@.len() == 12);
    assert("screen_available"@.len() == 16);
    assert("screen_not_available"@.len() == 20);
    assert("wayland_warning"@.len() == 15);
    assert("tab_ultradian"@[4] != "tab_dashboard"@[4]);
    assert("tab_ultradian"@[0] != "your_projects"@[0]);
    assert("tab_ultradian"@[0] != "session_label"@[0]);
    assert("tab_ultradian"@[0] != "project_label"@[0]);
    assert("ultradian_project"@[0] != "excel_header_name"@[0]);
    assert("ultradian_project"@[0] != "excel_header_tags"@[0]);
    assert("ultradian_project"@[0] != "deep_work_minutes"@[0]);
    assert("ultradian_project"@[0] != "empty_state_tasks"@[0]);
    assert("tab_tracker"@[0] != "new_project"@[0]);
    assert("tab_tracker"@[0] != "finish_save"@[0]);
    assert("tab_tracker"@[0] != "exported_to"@[0]);
    assert("tab_tracker"@[0] != "cycle_label"@[0]);
    assert("tab_tracker"@[0] != "description"@[0]);
    assert("tab_tracker"@[0] != "create_task"@[0]);
    assert("tab_tracker"@[0] != "hours_label"@[0]);
    assert("tab_tracker"@[1] != "today_total"@[1]);
    assert("tab_tracker"@[0] != "breathe_out"@[0]);
    assert("tab_tasks"@[0] != "date_unix"@[0]);
    assert("tab_tasks"@[1] != "todo_list"@[1]);
    assert("tab_tasks"@[0] != "skip_rest"@[0]);
    assert("tab_dashboard"@[0] != "your_projects"@[0]);
    assert("tab_dashboard"@[0] != "session_label"@[0]);
    assert("tab_dashboard"@[0] != "project_label"@[0]);
    assert("tab_settings"@[0] != "export_excel"@[0]);
    assert("tab_settings"@[0] != "error_export"@[0]);
    assert("tab_settings"@[0] != "sub_sessions"@[0]);
    assert("tab_settings"@[0] != "export_tasks"@[0]);
    assert("tab_settings"@[0] != "import_tasks"@[0]);
    assert("tab_settings"@[0] != "rest_minutes"@[0]);
    assert("tab_settings"@[0] != "work_on_this"@[0]);
    assert("tab_settings"@[0] != "clear_search"@[0]);
    assert("tab_settings"@[0] != "edit_tooltip"@[0]);
    assert("tab_settings"@[0] != "rest_message"@[0]);
    assert("ultradian_paused"@[0] != "new_work_session"@[0]);
    assert("ultradian_paused"@[0] != "project_optional"@[0]);
    assert("ultradian_paused"@[0] != "error_empty_name"@[0]);
    assert("ultradian_paused"@[0] != "screen_available"@[0]);
    assert("ultradian_idle"@[10] != "ultradian_work"@[10]);
    assert("ultradian_idle"@[0] != "total_duration"@[0]);
    assert("ultradian_idle"@[0] != "imported_tasks"@[0]);
    assert("ultradian_idle"@[0] != "chart_projects"@[0]);
    assert("ultradian_idle"@[0] != "delete_tooltip"@[0]);
    assert("ultradian_idle"@[0] != "total_all_time"@[0]);
    assert("ultradian_idle"@[0] != "total_sessions"@[0]);
    assert("ultradian_idle"@[0] != "hide_completed"@[0]);
    assert("ultradian_work"@[0] != "total_duration"@[0]);
    assert("ultradian_work"@[0] != "imported_tasks"@[0]);
    assert("ultradian_work"@[0] != "chart_projects"@[0]);
    assert("ultradian_work"@[0] != "delete_tooltip"@[0]);
    assert("ultradian_work"@[0] != "total_all_time"@[0]);
    assert("ultradian_work"@[0] != "total_sessions"@[0]);
    assert("ultradian_work"@[0] != "hide_completed"@[0]);
    assert("ultradian_help_start"@[15] != "ultradian_help_pause"@[15]);
    assert("ultradian_help_start"@[0] != "excel_header_project"@[0]);
    assert("ultradian_help_start"@[0] != "delete_confirm_title"@[0]);
    assert("ultradian_help_start"@[0] != "screen_not_available"@[0]);
    assert("ultradian_help_pause"@[0] != "excel_header_project"@[0]);
    assert("ultradian_help_pause"@[0] != "delete_confirm_title"@[0]);
    assert("ultradian_help_pause"@[0] != "screen_not_available"@[0]);
    assert("new_project"@[0] != "finish_save"@[0]);
    assert("new_project"@[0] != "exported_to"@[0]);
    assert("new_project"@[0] != "cycle_label"@[0]);
    assert("new_project"@[0] != "description"@[0]);
    assert("new_project"@[0] != "create_task"@[0]);
    assert("new_project"@[0] != "hours_label"@[0]);
    assert("new_project"@[0] != "today_total"@[0]);
    assert("new_project"@[0] != "breathe_out"@[0]);
    assert("create"@[1] != "cancel"@[1]);
    assert("create"@[0] != "medium"@[0]);
    assert("your_projects"@[0] != "session_label"@[0]);
    assert("your_projects"@[0] != "project_label"@[0]);
    assert("export_excel"@[1] != "error_export"@[1]);
    assert("export_excel"@[0] != "sub_sessions"@[0]);
    assert("export_excel"@[7] != "export_tasks"@[7]);
    assert("export_excel"@[0] != "import_tasks"@[0]);
    assert("export_excel"@[0] != "rest_minutes"@[0]);
    assert("export_excel"@[0] != "work_on_this"@[0]);
    assert("export_excel"@[0] != "clear_search"@[0]);
    assert("export_excel"@[1] != "edit_tooltip"@[1]);
    assert("export_excel"@[0] != "rest_message"@[0]);
    assert("new_work_session"@[0] != "project_optional"@[0]);
    assert("new_work_session"@[0] != "error_empty_name"@[0]);
    assert("new_work_session"@[0] != "screen_available"@[0]);
    assert("name"@[0] != "save"@[0]);
    assert("name"@[0] != "high"@[0]);
    assert("name"@[1] != "none"@[1]);
    assert("start"@[0] != "pause"@[0]);
    assert("finish_save"@[0] != "exported_to"@[0]);
    assert("finish_save"@[0] != "cycle_label"@[0]);
    assert("finish_save"@[0] != "description"@[0]);
    assert("finish_save"@[0] != "create_task"@[0]);
    assert("finish_save"@[0] != "hours_label"@[0]);
    assert("finish_save"@[0] != "today_total"@[0]);
    assert("finish_save"@[0] != "breathe_out"@[0]);
    assert("session_history"@[0] != "error_open_file"@[0]);
    assert("session_history"@[1] != "sheet_not_found"@[1]);
    assert("session_history"@[2] != "settings_screen"@[2]);
    assert("session_history"@[0] != "wayland_warning"@[0]);
    assert("date_unix"@[0] != "todo_list"@[0]);
    assert("date_unix"@[0] != "skip_rest"@[0]);
    assert("exported_to"@[0] != "cycle_label"@[0]);
    assert("exported_to"@[0] != "description"@[0]);
    assert("exported_to"@[0] != "create_task"@[0]);
    assert("exported_to"@[0] != "hours_label"@[0]);
    assert("exported_to"@[0] != "today_total"@[0]);
    assert("exported_to"@[0] != "breathe_out"@[0]);
    assert("error_export"@[0] != "sub_sessions"@[0]);
    assert("error_export"@[1] != "export_tasks"@[1]);
    assert("error_export"@[0] != "import_tasks"@[0]);
    assert("error_export"@[0] != "rest_minutes"@[0]);
    assert("error_export"@[0] != "work_on_this"@[0]);
    assert("error_export"@[0] != "clear_search"@[0]);
    assert("error_export"@[1] != "edit_tooltip"@[1]);
    assert("error_export"@[0] != "rest_message"@[0]);
    assert("continuing_session"@[0] != "skip_rest_shortcut"@[0]);
    assert("session_label"@[0] != "project_label"@[0]);
    assert("cycle_label"@[0] != "description"@[0]);
    assert("cycle_label"@[1] != "create_task"@[1]);
    assert("cycle_label"@[0] != "hours_label"@[0]);
    assert("cycle_label"@[0] != "today_total"@[0]);
    assert("cycle_label"@[0] != "breathe_out"@[0]);
    assert("save"@[0] != "high"@[0]);
    assert("save"@[0] != "none"@[0]);
    assert("cancel"@[0] != "medium"@[0]);
    assert("continue"@[0] != "new_task"@[0]);
    assert("continue"@[0] != "priority"@[0]);
    assert("continue"@[0] != "deadline"@[0]);
    assert("continue"@[0] != "settings"@[0]);
    assert("total_duration"@[0] != "imported_tasks"@[0]);
    assert("total_duration"@[0] != "chart_projects"@[0]);
    assert("total_duration"@[0] != "delete_tooltip"@[0]);
    assert("total_duration"@[6] != "total_all_time"@[6]);
    assert("total_duration"@[6] != "total_sessions"@[6]);
    assert("total_duration"@[0] != "hide_completed"@[0]);
    assert("sub_sessions"@[0] != "export_tasks"@[0]);
    assert("sub_sessions"@[0] != "import_tasks"@[0]);
    assert("sub_sessions"@[0] != "rest_minutes"@[0]);
    assert("sub_sessions"@[0] != "work_on_this"@[0]);
    assert("sub_sessions"@[0] != "clear_search"@[0]);
    assert("sub_sessions"@[0] != "edit_tooltip"@[0]);
    assert("sub_sessions"@[0] != "rest_message"@[0]);
    assert("delete_session_confirm"@[7] != "delete_project_confirm"@[7]);
    assert("delete_session_confirm"@[0] != "excel_header_completed"@[0]);
    assert("delete_session_confirm"@[0] != "notification_rest_body"@[0]);
    assert("delete_session_confirm"@[0] != "notification_work_body"@[0]);
    assert("delete_session_confirm"@[0] != "screen_dim_during_rest"@[0]);
    assert("delete_project_confirm"@[0] != "excel_header_completed"@[0]);
    assert("delete_project_confirm"@[0] != "notification_rest_body"@[0]);
    assert("delete_project_confirm"@[0] != "notification_work_body"@[0]);
    assert("delete_project_confirm"@[0] != "screen_dim_during_rest"@[0]);
    assert("yes_delete"@[0] != "tags_comma"@[0]);
    assert("yes_delete"@[0] != "breathe_in"@[0]);
    assert("export_tasks"@[0] != "import_tasks"@[0]);
    assert("export_tasks"@[0] != "rest_minutes"@[0]);
    assert("export_tasks"@[0] != "work_on_this"@[0]);
    assert("export_tasks"@[0] != "clear_search"@[0]);
    assert("export_tasks"@[1] != "edit_tooltip"@[1]);
    assert("export_tasks"@[0] != "rest_message"@[0]);
    assert("import_tasks"@[0] != "rest_minutes"@[0]);
    assert("import_tasks"@[0] != "work_on_this"@[0]);
    assert("import_tasks"@[0] != "clear_search"@[0]);
    assert("import_tasks"@[0] != "edit_tooltip"@[0]);
    assert("import_tasks"@[0] != "rest_message"@[0]);
    assert("error_open_file"@[0] != "sheet_not_found"@[0]);
    assert("error_open_file"@[0] != "settings_screen"@[0]);
    assert("error_open_file"@[0] != "wayland_warning"@[0]);
    assert("sheet_not_found"@[1] != "settings_screen"@[1]);
    assert("sheet_not_found"@[0] != "wayland_warning"@[0]);
    assert("imported_tasks"@[0] != "chart_projects"@[0]);
    assert("imported_tasks"@[0] != "delete_tooltip"@[0]);
    assert("imported_tasks"@[0] != "total_all_time"@[0]);
    assert("imported_tasks"@[0] != "total_sessions"@[0]);
    assert("imported_tasks"@[0] != "hide_completed"@[0]);
    assert("excel_header_name"@[13] != "excel_header_tags"@[13]);
    assert("excel_header_name"@[0] != "deep_work_minutes"@[0]);
    assert("excel_header_name"@[1] != "empty_state_tasks"@[1]);
    assert("excel_header_project"@[0] != "delete_confirm_title"@[0]);
    assert("excel_header_project"@[0] != "screen_not_available"@[0]);
    assert("excel_header_completed"@[0] != "notification_rest_body"@[0]);
    assert("excel_header_completed"@[0] != "notification_work_body"@[0]);
    assert("excel_header_completed"@[0] != "screen_dim_during_rest"@[0]);
    assert("excel_header_priority"@[13] != "excel_header_deadline"@[13]);
    assert("excel_header_priority"@[1] != "empty_state_dashboard"@[1]);
    assert("excel_header_tags"@[0] != "deep_work_minutes"@[0]);
    assert("excel_header_tags"@[1] != "empty_state_tasks"@[1]);
    assert("excel_header_deadline"@[1] != "empty_state_dashboard"@[1]);
    assert("new_task"@[0] != "priority"@[0]);
    assert("new_task"@[0] != "deadline"@[0]);
    assert("new_task"@[0] != "settings"@[0]);
    assert("priority"@[0] != "deadline"@[0]);
    assert("priority"@[0] != "settings"@[0]);
    assert("tags_comma"@[0] != "breathe_in"@[0]);
    assert("deadline"@[0] != "settings"@[0]);
    assert("description"@[0] != "create_task"@[0]);
    assert("description"@[0] != "hours_label"@[0]);
    assert("description"@[0] != "today_total"@[0]);
    assert("description"@[0] != "breathe_out"@[0]);
    assert("create_task"@[0] != "hours_label"@[0]);
    assert("create_task"@[0] != "today_total"@[0]);
    assert("create_task"@[0] != "breathe_out"@[0]);
    assert("todo_list"@[0] != "skip_rest"@[0]);
    assert("high"@[0] != "none"@[0]);
    assert("dashboard_hours_project"@[0] != "notification_rest_title"@[0]);
    assert("dashboard_hours_project"@[0] != "notification_work_title"@[0]);
    assert("dashboard_hours_project"@[0] != "screen_lock_during_rest"@[0]);
    assert("chart_projects"@[0] != "delete_tooltip"@[0]);
    assert("chart_projects"@[0] != "total_all_time"@[0]);
    assert("chart_projects"@[0] != "total_sessions"@[0]);
    assert("chart_projects"@[0] != "hide_completed"@[0]);
    assert("deep_work_minutes"@[0] != "empty_state_tasks"@[0]);
    assert("rest_minutes"@[0] != "work_on_this"@[0]);
    assert("rest_minutes"@[0] != "clear_search"@[0]);
    assert("rest_minutes"@[0] != "edit_tooltip"@[0]);
    assert("rest_minutes"@[6] != "rest_message"@[6]);
    assert("delete_confirm_title"@[0] != "screen_not_available"@[0]);
    assert("empty_state_tracker"@[0] != "task_session_prefix"@[0]);
    assert("project_optional"@[0] != "error_empty_name"@[0]);
    assert("project_optional"@[0] != "screen_available"@[0]);
    assert("work_on_this"@[0] != "clear_search"@[0]);
    assert("work_on_this"@[0] != "edit_tooltip"@[0]);
    assert("work_on_this"@[0] != "rest_message"@[0]);
    assert("notification_rest_title"@[13] != "notification_work_title"@[13]);
    assert("notification_rest_title"@[0] != "screen_lock_during_rest"@[0]);
    assert("notification_rest_body"@[13] != "notification_work_body"@[13]);
    assert("notification_rest_body"@[0] != "screen_dim_during_rest"@[0]);
    assert("notification_work_title"@[0] != "screen_lock_during_rest"@[0]);
    assert("notification_work_body"@[0] != "screen_dim_during_rest"@[0]);
    assert("error_empty_name"@[0] != "screen_available"@[0]);
    assert("clear_search"@[0] != "edit_tooltip"@[0]);
    assert("clear_search"@[0] != "rest_message"@[0]);
    assert("edit_tooltip"@[0] != "rest_message"@[0]);
    assert("delete_tooltip"@[0] != "total_all_time"@[0]);
    assert("delete_tooltip"@[0] != "total_sessions"@[0]);
    assert("delete_tooltip"@[0] != "hide_completed"@[0]);
    assert("hours_label"@[0] != "today_total"@[0]);
    assert("hours_label"@[0] != "breathe_out"@[0]);
    assert("today_total"@[0] != "breathe_out"@[0]);
    assert("total_all_time"@[6] != "total_sessions"@[6]);
    assert("total_all_time"@[0] != "hide_completed"@[0]);
    assert("total_sessions"@[0] != "hide_completed"@[0]);
    assert("settings_screen"@[0] != "wayland_warning"@[0]);
    reveal_with_fuel(keys_distinct_upto, 96);
    reveal_with_fuel(key_absent_before, 96);
}

/// No two entries of the table share a key.
pub proof fn lemma_translation_keys_unique()
    ensures
        forall|i: int, j: int|
            0 <= i < j < TRANSLATION_COUNT ==> (#[trigger] translation(i)).0@
                != (#[trigger] translation(j)).0@,
{
    lemma_table_keys_distinct();
    lemma_keys_distinct_upto(TRANSLATION_COUNT as int);
}

} // verus!
