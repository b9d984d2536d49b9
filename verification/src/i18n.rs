//! The user-interface languages and the phrase catalogue.
use vstd::prelude::*;
use crate::text::{chars_of, contains_seq, occurs_at};

verus! {

/// A language of the user interface.
#[derive(Debug, Clone, Copy, PartialEq, Eq, Structural)]
pub enum Language {
    German,
    English,
    French,
    Spanish,
    Italian,
}

/// A phrase of the user interface, named by its catalogue key.
#[derive(Debug, Clone, Copy, PartialEq, Eq, Structural)]
pub enum TextKey {
    Title,
    LoadTemplate,
    LoadEnv,
    Save,
    FilterHint,
    TemplateLbl,
    TargetLbl,
    NoneLabel,
    StatusStart,
    StatusTemplateErr,
    StatusTemplateOk,
    StatusEnvOk,
    GridDesc,
    GridKey,
    GridVal,
    NoDesc,
    GenSecret,
    SecretCopied,
    LineEndings,
    SecretLenLbl,
    ErrOpen,
    ErrRead,
    ErrCreate,
    ErrWrite,
    ErrBackup,
    SavedTo,
    CountVars,
    CountMerged,
    ToggleVisibility,
    SecretHover,
    PickTemplate,
    PickEnv,
    SaveTitle,
}

/// The name of each language, in that language.
pub open spec fn language_name(l: Language) -> Seq<char> {
    match l {
        Language::German => "Deutsch"@,
        Language::English => "English"@,
        Language::French => "Français"@,
        Language::Spanish => "Español"@,
        Language::Italian => "Italiano"@,
    }
}

/// The catalogue key by which a phrase is asked for.
pub open spec fn key_name(k: TextKey) -> Seq<char> {
    match k {
        TextKey::Title => "title"@,
        TextKey::LoadTemplate => "load_template"@,
        TextKey::LoadEnv => "load_env"@,
        TextKey::Save => "save"@,
        TextKey::FilterHint => "filter_hint"@,
        TextKey::TemplateLbl => "template_lbl"@,
        TextKey::TargetLbl => "target_lbl"@,
        TextKey::NoneLabel => "none"@,
        TextKey::StatusStart => "status_start"@,
        TextKey::StatusTemplateErr => "status_template_err"@,
        TextKey::StatusTemplateOk => "status_template_ok"@,
        TextKey::StatusEnvOk => "status_env_ok"@,
        TextKey::GridDesc => "grid_desc"@,
        TextKey::GridKey => "grid_key"@,
        TextKey::GridVal => "grid_val"@,
        TextKey::NoDesc => "no_desc"@,
        TextKey::GenSecret => "gen_secret"@,
        TextKey::SecretCopied => "secret_copied"@,
        TextKey::LineEndings => "line_endings"@,
        TextKey::SecretLenLbl => "secret_len_lbl"@,
        TextKey::ErrOpen => "err_open"@,
        TextKey::ErrRead => "err_read"@,
        TextKey::ErrCreate => "err_create"@,
        TextKey::ErrWrite => "err_write"@,
        TextKey::ErrBackup => "err_backup"@,
        TextKey::SavedTo => "saved_to"@,
        TextKey::CountVars => "count_vars"@,
        TextKey::CountMerged => "count_merged"@,
        TextKey::ToggleVisibility => "toggle_visibility"@,
        TextKey::SecretHover => "secret_hover"@,
        TextKey::PickTemplate => "pick_template"@,
        TextKey::PickEnv => "pick_env"@,
        TextKey::SaveTitle => "save_title"@,
    }
}

/// The key whose name is `s`, if there is one.
pub open spec fn lookup_key(s: Seq<char>) -> Option<TextKey> {
    if s == "title"@ {
        Some(TextKey::Title)
    } else if s == "load_template"@ {
        Some(TextKey::LoadTemplate)
    } else if s == "load_env"@ {
        Some(TextKey::LoadEnv)
    } else if s == "save"@ {
        Some(TextKey::Save)
    } else if s == "filter_hint"@ {
        Some(TextKey::FilterHint)
    } else if s == "template_lbl"@ {
        Some(TextKey::TemplateLbl)
    } else if s == "target_lbl"@ {
        Some(TextKey::TargetLbl)
    } else if s == "none"@ {
        Some(TextKey::NoneLabel)
    } else if s == "status_start"@ {
        Some(TextKey::StatusStart)
    } else if s == "status_template_err"@ {
        Some(TextKey::StatusTemplateErr)
    } else if s == "status_template_ok"@ {
        Some(TextKey::StatusTemplateOk)
    } else if s == "status_env_ok"@ {
        Some(TextKey::StatusEnvOk)
    } else if s == "grid_desc"@ {
        Some(TextKey::GridDesc)
    } else if s == "grid_key"@ {
        Some(TextKey::GridKey)
    } else if s == "grid_val"@ {
        Some(TextKey::GridVal)
    } else if s == "no_desc"@ {
        Some(TextKey::NoDesc)
    } else if s == "gen_secret"@ {
        Some(TextKey::GenSecret)
    } else if s == "secret_copied"@ {
        Some(TextKey::SecretCopied)
    } else if s == "line_endings"@ {
        Some(TextKey::LineEndings)
    } else if s == "secret_len_lbl"@ {
        Some(TextKey::SecretLenLbl)
    } else if s == "err_open"@ {
        Some(TextKey::ErrOpen)
    } else if s == "err_read"@ {
        Some(TextKey::ErrRead)
    } else if s == "err_create"@ {
        Some(TextKey::ErrCreate)
    } else if s == "err_write"@ {
        Some(TextKey::ErrWrite)
    } else if s == "err_backup"@ {
        Some(TextKey::ErrBackup)
    } else if s == "saved_to"@ {
        Some(TextKey::SavedTo)
    } else if s == "count_vars"@ {
        Some(TextKey::CountVars)
    } else if s == "count_merged"@ {
        Some(TextKey::CountMerged)
    } else if s == "toggle_visibility"@ {
        Some(TextKey::ToggleVisibility)
    } else if s == "secret_hover"@ {
        Some(TextKey::SecretHover)
    } else if s == "pick_template"@ {
        Some(TextKey::PickTemplate)
    } else if s == "pick_env"@ {
        Some(TextKey::PickEnv)
    } else if s == "save_title"@ {
        Some(TextKey::SaveTitle)
    } else {
        None
    }
}

/// The catalogue: each phrase in each language.
pub open spec fn phrase(l: Language, k: TextKey) -> Seq<char> {
    match (l, k) {
        (Language::German, TextKey::Title) => "🔒 OxiCloud .env Konfigurations-Editor"@,
        (Language::German, TextKey::LoadTemplate) => "📁 1. Vorlage laden"@,
        (Language::German, TextKey::LoadEnv) => "🔄 2. Bestehende .env dazuladen"@,
        (Language::German, TextKey::Save) => "💾 Speichern unter..."@,
        (Language::German, TextKey::FilterHint) => "🔍 Filter nach Key oder Beschreibung..."@,
        (Language::German, TextKey::TemplateLbl) => "Vorlage"@,
        (Language::German, TextKey::TargetLbl) => "Ziel"@,
        (Language::German, TextKey::NoneLabel) => "Keine"@,
        (Language::German, TextKey::StatusStart) => "Bitte laden Sie eine Template-Datei (z.B. example.env / env.example)..."@,
        (Language::German, TextKey::StatusTemplateErr) => "Fehler: Laden Sie zuerst eine Template-Datei!"@,
        (Language::German, TextKey::StatusTemplateOk) => "Template erfolgreich geladen!"@,
        (Language::German, TextKey::StatusEnvOk) => "Bestehende .env abgeglichen!"@,
        (Language::German, TextKey::GridDesc) => "📝 Beschreibung / Hilfetext"@,
        (Language::German, TextKey::GridKey) => "🔑 Schlüssel (Key)"@,
        (Language::German, TextKey::GridVal) => "✍️ Wert (Value)"@,
        (Language::German, TextKey::NoDesc) => "Keine Beschreibung vorhanden."@,
        (Language::German, TextKey::GenSecret) => "🔑 Secret generieren & kopieren"@,
        (Language::German, TextKey::SecretCopied) => "Kryptografischer Schlüssel generiert und in die Zwischenablage kopiert!"@,
        (Language::German, TextKey::LineEndings) => "Zeilenumbrüche für:"@,
        (Language::German, TextKey::SecretLenLbl) => "Länge:"@,
        (Language::German, TextKey::ErrOpen) => "Fehler beim Öffnen: {}"@,
        (Language::German, TextKey::ErrRead) => "Fehler beim Lesen: {}"@,
        (Language::German, TextKey::ErrCreate) => "Fehler beim Erstellen der Datei: {}"@,
        (Language::German, TextKey::ErrWrite) => "Fehler beim Schreiben: {}"@,
        (Language::German, TextKey::ErrBackup) => "Backup fehlgeschlagen: {}"@,
        (Language::German, TextKey::SavedTo) => "Gespeichert unter: {}"@,
        (Language::German, TextKey::CountVars) => "{} Variablen gefunden."@,
        (Language::German, TextKey::CountMerged) => "{} Werte übernommen."@,
        (Language::German, TextKey::ToggleVisibility) => "Sichtbarkeit umschalten"@,
        (Language::German, TextKey::SecretHover) => "Generiert ein sicheres Krypto-Secret und kopiert es automatisch."@,
        (Language::German, TextKey::PickTemplate) => "Wähle eine Template-Datei (example.env / env.example)"@,
        (Language::German, TextKey::PickEnv) => "Wähle eine existierende .env"@,
        (Language::German, TextKey::SaveTitle) => ".env Speichern"@,
        (Language::English, TextKey::Title) => "🔒 OxiCloud .env Configuration Editor"@,
        (Language::English, TextKey::LoadTemplate) => "📁 1. Load Template"@,
        (Language::English, TextKey::LoadEnv) => "🔄 2. Merge existing .env"@,
        (Language::English, TextKey::Save) => "💾 Save as..."@,
        (Language::English, TextKey::FilterHint) => "🔍 Filter by Key or Description..."@,
        (Language::English, TextKey::TemplateLbl) => "Template"@,
        (Language::English, TextKey::TargetLbl) => "Target"@,
        (Language::English, TextKey::NoneLabel) => "None"@,
        (Language::English, TextKey::StatusStart) => "Please load a template file (e.g., example.env / env.example)..."@,
        (Language::English, TextKey::StatusTemplateErr) => "Error: Please load a template file first!"@,
        (Language::English, TextKey::StatusTemplateOk) => "Template successfully loaded!"@,
        (Language::English, TextKey::StatusEnvOk) => "Existing .env merged!"@,
        (Language::English, TextKey::GridDesc) => "📝 Description / Help Text"@,
        (Language::English, TextKey::GridKey) => "🔑 Key"@,
        (Language::English, TextKey::GridVal) => "✍️ Value"@,
        (Language::English, TextKey::NoDesc) => "No description available."@,
        (Language::English, TextKey::GenSecret) => "🔑 Generate & Copy Secret"@,
        (Language::English, TextKey::SecretCopied) => "Cryptographic key generated and copied to clipboard!"@,
        (Language::English, TextKey::LineEndings) => "Line endings for:"@,
        (Language::English, TextKey::SecretLenLbl) => "Length:"@,
        (Language::English, TextKey::ErrOpen) => "Error opening file: {}"@,
        (Language::English, TextKey::ErrRead) => "Error reading file: {}"@,
        (Language::English, TextKey::ErrCreate) => "Error creating file: {}"@,
        (Language::English, TextKey::ErrWrite) => "Error writing file: {}"@,
        (Language::English, TextKey::ErrBackup) => "Backup failed: {}"@,
        (Language::English, TextKey::SavedTo) => "Saved to: {}"@,
        (Language::English, TextKey::CountVars) => "{} variables found."@,
        (Language::English, TextKey::CountMerged) => "{} values merged."@,
        (Language::English, TextKey::ToggleVisibility) => "Toggle visibility"@,
        (Language::English, TextKey::SecretHover) => "Generates a secure crypto secret and copies it automatically."@,
        (Language::English, TextKey::PickTemplate) => "Select a template file (example.env / env.example)"@,
        (Language::English, TextKey::PickEnv) => "Select an existing .env"@,
        (Language::English, TextKey::SaveTitle) => "Save .env"@,
        (Language::French, TextKey::Title) => "🔒 Éditeur de configuration .env OxiCloud"@,
        (Language::French, TextKey::LoadTemplate) => "📁 1. Charger le modèle"@,
        (Language::French, TextKey::LoadEnv) => "🔄 2. Fusionner le .env existant"@,
        (Language::French, TextKey::Save) => "💾 Enregistrer sous..."@,
        (Language::French, TextKey::FilterHint) => "🔍 Filtrer par clé ou description..."@,
        (Language::French, TextKey::TemplateLbl) => "Modèle"@,
        (Language::French, TextKey::TargetLbl) => "Cible"@,
        (Language::French, TextKey::NoneLabel) => "Aucun"@,
        (Language::French, TextKey::StatusStart) => "Veuillez charger un fichier modèle (ex. example.env / env.example)..."@,
        (Language::French, TextKey::StatusTemplateErr) => "Erreur : Veuillez d'abord charger un fichier modèle !"@,
        (Language::French, TextKey::StatusTemplateOk) => "Modèle chargé avec succès !"@,
        (Language::French, TextKey::StatusEnvOk) => ".env existant fusionné !"@,
        (Language::French, TextKey::GridDesc) => "📝 Description / Aide"@,
        (Language::French, TextKey::GridKey) => "🔑 Clé"@,
        (Language::French, TextKey::GridVal) => "✍️ Valeur"@,
        (Language::French, TextKey::NoDesc) => "Aucune description disponible."@,
        (Language::French, TextKey::GenSecret) => "🔑 Générer & copier un secret"@,
        (Language::French, TextKey::SecretCopied) => "Clé cryptographique générée et copiée dans le presse-papier !"@,
        (Language::French, TextKey::LineEndings) => "Sauts de ligne pour :"@,
        (Language::French, TextKey::SecretLenLbl) => "Longueur :"@,
        (Language::French, TextKey::ErrOpen) => "Erreur d'ouverture : {}"@,
        (Language::French, TextKey::ErrRead) => "Erreur de lecture : {}"@,
        (Language::French, TextKey::ErrCreate) => "Erreur de création du fichier : {}"@,
        (Language::French, TextKey::ErrWrite) => "Erreur d'écriture : {}"@,
        (Language::French, TextKey::ErrBackup) => "Échec de la sauvegarde : {}"@,
        (Language::French, TextKey::SavedTo) => "Enregistré sous : {}"@,
        (Language::French, TextKey::CountVars) => "{} variables trouvées."@,
        (Language::French, TextKey::CountMerged) => "{} valeurs fusionnées."@,
        (Language::French, TextKey::ToggleVisibility) => "Basculer la visibilité"@,
        (Language::French, TextKey::SecretHover) => "Génère un secret cryptographique sûr et le copie automatiquement."@,
        (Language::French, TextKey::PickTemplate) => "Sélectionner un fichier modèle (example.env / env.example)"@,
        (Language::French, TextKey::PickEnv) => "Sélectionner un .env existant"@,
        (Language::French, TextKey::SaveTitle) => "Enregistrer .env"@,
        (Language::Spanish, TextKey::Title) => "🔒 Editor de configuración .env OxiCloud"@,
        (Language::Spanish, TextKey::LoadTemplate) => "📁 1. Cargar plantilla"@,
        (Language::Spanish, TextKey::LoadEnv) => "🔄 2. Fusionar .env existente"@,
        (Language::Spanish, TextKey::Save) => "💾 Guardar como..."@,
        (Language::Spanish, TextKey::FilterHint) => "🔍 Filtrar por clave o descripción..."@,
        (Language::Spanish, TextKey::TemplateLbl) => "Plantilla"@,
        (Language::Spanish, TextKey::TargetLbl) => "Destino"@,
        (Language::Spanish, TextKey::NoneLabel) => "Ninguno"@,
        (Language::Spanish, TextKey::StatusStart) => "Cargue un archivo de plantilla (p. ej., example.env / env.example)..."@,
        (Language::Spanish, TextKey::StatusTemplateErr) => "Error: ¡Cargue primero un archivo de plantilla!"@,
        (Language::Spanish, TextKey::StatusTemplateOk) => "¡Plantilla cargada con éxito!"@,
        (Language::Spanish, TextKey::StatusEnvOk) => "¡.env existente fusionado!"@,
        (Language::Spanish, TextKey::GridDesc) => "📝 Descripción / Ayuda"@,
        (Language::Spanish, TextKey::GridKey) => "🔑 Clave"@,
        (Language::Spanish, TextKey::GridVal) => "✍️ Valor"@,
        (Language::Spanish, TextKey::NoDesc) => "Sin descripción disponible."@,
        (Language::Spanish, TextKey::GenSecret) => "🔑 Generar y copiar secreto"@,
        (Language::Spanish, TextKey::SecretCopied) => "¡Clave criptográfica generada y copiada al portapapeles!"@,
        (Language::Spanish, TextKey::LineEndings) => "Saltos de línea para:"@,
        (Language::Spanish, TextKey::SecretLenLbl) => "Longitud:"@,
        (Language::Spanish, TextKey::ErrOpen) => "Error al abrir: {}"@,
        (Language::Spanish, TextKey::ErrRead) => "Error al leer: {}"@,
        (Language::Spanish, TextKey::ErrCreate) => "Error al crear el archivo: {}"@,
        (Language::Spanish, TextKey::ErrWrite) => "Error al escribir: {}"@,
        (Language::Spanish, TextKey::ErrBackup) => "Error en la copia de seguridad: {}"@,
        (Language::Spanish, TextKey::SavedTo) => "Guardado en: {}"@,
        (Language::Spanish, TextKey::CountVars) => "{} variables encontradas."@,
        (Language::Spanish, TextKey::CountMerged) => "{} valores fusionados."@,
        (Language::Spanish, TextKey::ToggleVisibility) => "Alternar visibilidad"@,
        (Language::Spanish, TextKey::SecretHover) => "Genera un secreto criptográfico seguro y lo copia automáticamente."@,
        (Language::Spanish, TextKey::PickTemplate) => "Seleccione un archivo de plantilla (example.env / env.example)"@,
        (Language::Spanish, TextKey::PickEnv) => "Seleccione un .env existente"@,
        (Language::Spanish, TextKey::SaveTitle) => "Guardar .env"@,
        (Language::Italian, TextKey::Title) => "🔒 Editor di configurazione .env OxiCloud"@,
        (Language::Italian, TextKey::LoadTemplate) => "📁 1. Carica modello"@,
        (Language::Italian, TextKey::LoadEnv) => "🔄 2. Unisci .env esistente"@,
        (Language::Italian, TextKey::Save) => "💾 Salva come..."@,
        (Language::Italian, TextKey::FilterHint) => "🔍 Filtra per chiave o descrizione..."@,
        (Language::Italian, TextKey::TemplateLbl) => "Modello"@,
        (Language::Italian, TextKey::TargetLbl) => "Destinazione"@,
        (Language::Italian, TextKey::NoneLabel) => "Nessuno"@,
        (Language::Italian, TextKey::StatusStart) => "Carica un file modello (es. example.env / env.example)..."@,
        (Language::Italian, TextKey::StatusTemplateErr) => "Errore: caricare prima un file modello!"@,
        (Language::Italian, TextKey::StatusTemplateOk) => "Modello caricato con successo!"@,
        (Language::Italian, TextKey::StatusEnvOk) => ".env esistente unito!"@,
        (Language::Italian, TextKey::GridDesc) => "📝 Descrizione / Aiuto"@,
        (Language::Italian, TextKey::GridKey) => "🔑 Chiave"@,
        (Language::Italian, TextKey::GridVal) => "✍️ Valore"@,
        (Language::Italian, TextKey::NoDesc) => "Nessuna descrizione disponibile."@,
        (Language::Italian, TextKey::GenSecret) => "🔑 Genera e copia segreto"@,
        (Language::Italian, TextKey::SecretCopied) => "Chiave crittografica generata e copiata negli appunti!"@,
        (Language::Italian, TextKey::LineEndings) => "Fine riga per:"@,
        (Language::Italian, TextKey::SecretLenLbl) => "Lunghezza:"@,
        (Language::Italian, TextKey::ErrOpen) => "Errore di apertura: {}"@,
        (Language::Italian, TextKey::ErrRead) => "Errore di lettura: {}"@,
        (Language::Italian, TextKey::ErrCreate) => "Errore di creazione del file: {}"@,
        (Language::Italian, TextKey::ErrWrite) => "Errore di scrittura: {}"@,
        (Language::Italian, TextKey::ErrBackup) => "Backup non riuscito: {}"@,
        (Language::Italian, TextKey::SavedTo) => "Salvato in: {}"@,
        (Language::Italian, TextKey::CountVars) => "{} variabili trovate."@,
        (Language::Italian, TextKey::CountMerged) => "{} valori uniti."@,
        (Language::Italian, TextKey::ToggleVisibility) => "Cambia visibilità"@,
        (Language::Italian, TextKey::SecretHover) => "Genera un segreto crittografico sicuro e lo copia automaticamente."@,
        (Language::Italian, TextKey::PickTemplate) => "Seleziona un file modello (example.env / env.example)"@,
        (Language::Italian, TextKey::PickEnv) => "Seleziona un .env esistente"@,
        (Language::Italian, TextKey::SaveTitle) => "Salva .env"@,
    }
}

/// What `translate` answers for a key that the catalogue does not hold.
pub open spec fn unknown_phrase() -> Seq<char> {
    "?"@
}

/// The phrase that `translate` gives for the key named `key`.
pub open spec fn translation(l: Language, key: Seq<char>) -> Seq<char> {
    match lookup_key(key) {
        Some(k) => phrase(l, k),
        None => unknown_phrase(),
    }
}


/// The length and first letter of each of the catalogue's key names.
proof fn lemma_key_name_shapes()
    ensures
        "title"@.len() == 5 && "title"@[0] == 't',
        "load_template"@.len() == 13 && "load_template"@[0] == 'l',
        "load_env"@.len() == 8 && "load_env"@[0] == 'l',
        "save"@.len() == 4 && "save"@[0] == 's',
        "filter_hint"@.len() == 11 && "filter_hint"@[0] == 'f',
        "template_lbl"@.len() == 12 && "template_lbl"@[0] == 't',
        "target_lbl"@.len() == 10 && "target_lbl"@[0] == 't',
        "none"@.len() == 4 && "none"@[0] == 'n',
        "status_start"@.len() == 12 && "status_start"@[0] == 's',
        "status_template_err"@.len() == 19 && "status_template_err"@[0] == 's',
        "status_template_ok"@.len() == 18 && "status_template_ok"@[0] == 's',
        "status_env_ok"@.len() == 13 && "status_env_ok"@[0] == 's',
        "grid_desc"@.len() == 9 && "grid_desc"@[0] == 'g',
        "grid_key"@.len() == 8 && "grid_key"@[0] == 'g',
        "grid_val"@.len() == 8 && "grid_val"@[0] == 'g',
        "no_desc"@.len() == 7 && "no_desc"@[0] == 'n',
        "gen_secret"@.len() == 10 && "gen_secret"@[0] == 'g',
        "secret_copied"@.len() == 13 && "secret_copied"@[0] == 's',
        "line_endings"@.len() == 12 && "line_endings"@[0] == 'l',
        "secret_len_lbl"@.len() == 14 && "secret_len_lbl"@[0] == 's',
        "err_open"@.len() == 8 && "err_open"@[0] == 'e',
        "err_read"@.len() == 8 && "err_read"@[0] == 'e',
        "err_create"@.len() == 10 && "err_create"@[0] == 'e',
        "err_write"@.len() == 9 && "err_write"@[0] == 'e',
        "err_backup"@.len() == 10 && "err_backup"@[0] == 'e',
        "saved_to"@.len() == 8 && "saved_to"@[0] == 's',
        "count_vars"@.len() == 10 && "count_vars"@[0] == 'c',
        "count_merged"@.len() == 12 && "count_merged"@[0] == 'c',
        "toggle_visibility"@.len() == 17 && "toggle_visibility"@[0] == 't',
        "secret_hover"@.len() == 12 && "secret_hover"@[0] == 's',
        "pick_template"@.len() == 13 && "pick_template"@[0] == 'p',
        "pick_env"@.len() == 8 && "pick_env"@[0] == 'p',
        "save_title"@.len() == 10 && "save_title"@[0] == 's',
{
    reveal_strlit("title");
    reveal_strlit("load_template");
    reveal_strlit("load_env");
    reveal_strlit("save");
    reveal_strlit("filter_hint");
    reveal_strlit("template_lbl");
    reveal_strlit("target_lbl");
    reveal_strlit("none");
    reveal_strlit("status_start");
    reveal_strlit("status_template_err");
    reveal_strlit("status_template_ok");
    reveal_strlit("status_env_ok");
    reveal_strlit("grid_desc");
    reveal_strlit("grid_key");
    reveal_strlit("grid_val");
    reveal_strlit("no_desc");
    reveal_strlit("gen_secret");
    reveal_strlit("secret_copied");
    reveal_strlit("line_endings");
    reveal_strlit("secret_len_lbl");
    reveal_strlit("err_open");
    reveal_strlit("err_read");
    reveal_strlit("err_create");
    reveal_strlit("err_write");
    reveal_strlit("err_backup");
    reveal_strlit("saved_to");
    reveal_strlit("count_vars");
    reveal_strlit("count_merged");
    reveal_strlit("toggle_visibility");
    reveal_strlit("secret_hover");
    reveal_strlit("pick_template");
    reveal_strlit("pick_env");
    reveal_strlit("save_title");
}

/// Every phrase of the catalogue is found by its key's name, in every
/// language: the interface is complete in each of them.
pub proof fn law_keys_found_by_name(l: Language, k: TextKey)
    ensures
        lookup_key(key_name(k)) == Some(k),
        translation(l, key_name(k)) == phrase(l, k),
{
    lemma_key_name_shapes();
    match k {
        TextKey::GridVal => {
            assert("grid_val"@[5] != "grid_key"@[5]) by {
                reveal_strlit("grid_val");
                reveal_strlit("grid_key");
            }
        },
        TextKey::SecretCopied => {
            assert("secret_copied"@[1] != "status_env_ok"@[1]) by {
                reveal_strlit("secret_copied");
                reveal_strlit("status_env_ok");
            }
        },
        TextKey::ErrRead => {
            assert("err_read"@[4] != "err_open"@[4]) by {
                reveal_strlit("err_read");
                reveal_strlit("err_open");
            }
        },
        TextKey::ErrBackup => {
            assert("err_backup"@[4] != "err_create"@[4]) by {
                reveal_strlit("err_backup");
                reveal_strlit("err_create");
            }
        },
        TextKey::SecretHover => {
            assert("secret_hover"@[1] != "status_start"@[1]) by {
                reveal_strlit("secret_hover");
                reveal_strlit("status_start");
            }
        },
        _ => {},
    }
}

fn same_chars(a: &Vec<char>, b: &str) -> (r: bool)
    ensures
        r == (a@ == b@),
{
    let bc = chars_of(b);
    if a.len() != bc.len() {
        return false;
    }
    let mut i: usize = 0;
    while i < a.len()
        invariant
            a@.len() == bc@.len(),
            bc@ == b@,
            i <= a@.len(),
            forall|j: int| 0 <= j < i ==> a@[j] == bc@[j],
        decreases a@.len() - i,
    {
        if a[i] != bc[i] {
            return false;
        }
        i = i + 1;
    }
    assert(a@ =~= bc@);
    true
}

/// The key whose name is `key`, if there is one.
pub fn find_key(key: &str) -> (r: Option<TextKey>)
    ensures
        r == lookup_key(key@),
{
    let cs = chars_of(key);
    if same_chars(&cs, "title") {
        Some(TextKey::Title)
    } else if same_chars(&cs, "load_template") {
        Some(TextKey::LoadTemplate)
    } else if same_chars(&cs, "load_env") {
        Some(TextKey::LoadEnv)
    } else if same_chars(&cs, "save") {
        Some(TextKey::Save)
    } else if same_chars(&cs, "filter_hint") {
        Some(TextKey::FilterHint)
    } else if same_chars(&cs, "template_lbl") {
        Some(TextKey::TemplateLbl)
    } else if same_chars(&cs, "target_lbl") {
        Some(TextKey::TargetLbl)
    } else if same_chars(&cs, "none") {
        Some(TextKey::NoneLabel)
    } else if same_chars(&cs, "status_start") {
        Some(TextKey::StatusStart)
    } else if same_chars(&cs, "status_template_err") {
        Some(TextKey::StatusTemplateErr)
    } else if same_chars(&cs, "status_template_ok") {
        Some(TextKey::StatusTemplateOk)
    } else if same_chars(&cs, "status_env_ok") {
        Some(TextKey::StatusEnvOk)
    } else if same_chars(&cs, "grid_desc") {
        Some(TextKey::GridDesc)
    } else if same_chars(&cs, "grid_key") {
        Some(TextKey::GridKey)
    } else if same_chars(&cs, "grid_val") {
        Some(TextKey::GridVal)
    } else if same_chars(&cs, "no_desc") {
        Some(TextKey::NoDesc)
    } else if same_chars(&cs, "gen_secret") {
        Some(TextKey::GenSecret)
    } else if same_chars(&cs, "secret_copied") {
        Some(TextKey::SecretCopied)
    } else if same_chars(&cs, "line_endings") {
        Some(TextKey::LineEndings)
    } else if same_chars(&cs, "secret_len_lbl") {
        Some(TextKey::SecretLenLbl)
    } else if same_chars(&cs, "err_open") {
        Some(TextKey::ErrOpen)
    } else if same_chars(&cs, "err_read") {
        Some(TextKey::ErrRead)
    } else if same_chars(&cs, "err_create") {
        Some(TextKey::ErrCreate)
    } else if same_chars(&cs, "err_write") {
        Some(TextKey::ErrWrite)
    } else if same_chars(&cs, "err_backup") {
        Some(TextKey::ErrBackup)
    } else if same_chars(&cs, "saved_to") {
        Some(TextKey::SavedTo)
    } else if same_chars(&cs, "count_vars") {
        Some(TextKey::CountVars)
    } else if same_chars(&cs, "count_merged") {
        Some(TextKey::CountMerged)
    } else if same_chars(&cs, "toggle_visibility") {
        Some(TextKey::ToggleVisibility)
    } else if same_chars(&cs, "secret_hover") {
        Some(TextKey::SecretHover)
    } else if same_chars(&cs, "pick_template") {
        Some(TextKey::PickTemplate)
    } else if same_chars(&cs, "pick_env") {
        Some(TextKey::PickEnv)
    } else if same_chars(&cs, "save_title") {
        Some(TextKey::SaveTitle)
    } else {
        None
    }
}

impl Language {
    /// The name of the language, in that language.
    pub fn name(&self) -> (s: &'static str)
        ensures
            s@ == language_name(*self),
    {
        match self {
            Language::German => "Deutsch",
            Language::English => "English",
            Language::French => "Français",
            Language::Spanish => "Español",
            Language::Italian => "Italiano",
        }
    }

    /// The phrase for `key` in this language.
    pub fn phrase_of(&self, key: TextKey) -> (s: &'static str)
        ensures
            s@ == phrase(*self, key),
    {
        match (self, key) {
            (Language::German, TextKey::Title) => "🔒 OxiCloud .env Konfigurations-Editor",
            (Language::German, TextKey::LoadTemplate) => "📁 1. Vorlage laden",
            (Language::German, TextKey::LoadEnv) => "🔄 2. Bestehende .env dazuladen",
            (Language::German, TextKey::Save) => "💾 Speichern unter...",
            (Language::German, TextKey::FilterHint) => "🔍 Filter nach Key oder Beschreibung...",
            (Language::German, TextKey::TemplateLbl) => "Vorlage",
            (Language::German, TextKey::TargetLbl) => "Ziel",
            (Language::German, TextKey::NoneLabel) => "Keine",
            (Language::German, TextKey::StatusStart) => "Bitte laden Sie eine Template-Datei (z.B. example.env / env.example)...",
            (Language::German, TextKey::StatusTemplateErr) => "Fehler: Laden Sie zuerst eine Template-Datei!",
            (Language::German, TextKey::StatusTemplateOk) => "Template erfolgreich geladen!",
            (Language::German, TextKey::StatusEnvOk) => "Bestehende .env abgeglichen!",
            (Language::German, TextKey::GridDesc) => "📝 Beschreibung / Hilfetext",
            (Language::German, TextKey::GridKey) => "🔑 Schlüssel (Key)",
            (Language::German, TextKey::GridVal) => "✍️ Wert (Value)",
            (Language::German, TextKey::NoDesc) => "Keine Beschreibung vorhanden.",
            (Language::German, TextKey::GenSecret) => "🔑 Secret generieren & kopieren",
            (Language::German, TextKey::SecretCopied) => "Kryptografischer Schlüssel generiert und in die Zwischenablage kopiert!",
            (Language::German, TextKey::LineEndings) => "Zeilenumbrüche für:",
            (Language::German, TextKey::SecretLenLbl) => "Länge:",
            (Language::German, TextKey::ErrOpen) => "Fehler beim Öffnen: {}",
            (Language::German, TextKey::ErrRead) => "Fehler beim Lesen: {}",
            (Language::German, TextKey::ErrCreate) => "Fehler beim Erstellen der Datei: {}",
            (Language::German, TextKey::ErrWrite) => "Fehler beim Schreiben: {}",
            (Language::German, TextKey::ErrBackup) => "Backup fehlgeschlagen: {}",
            (Language::German, TextKey::SavedTo) => "Gespeichert unter: {}",
            (Language::German, TextKey::CountVars) => "{} Variablen gefunden.",
            (Language::German, TextKey::CountMerged) => "{} Werte übernommen.",
            (Language::German, TextKey::ToggleVisibility) => "Sichtbarkeit umschalten",
            (Language::German, TextKey::SecretHover) => "Generiert ein sicheres Krypto-Secret und kopiert es automatisch.",
            (Language::German, TextKey::PickTemplate) => "Wähle eine Template-Datei (example.env / env.example)",
            (Language::German, TextKey::PickEnv) => "Wähle eine existierende .env",
            (Language::German, TextKey::SaveTitle) => ".env Speichern",
            (Language::English, TextKey::Title) => "🔒 OxiCloud .env Configuration Editor",
            (Language::English, TextKey::LoadTemplate) => "📁 1. Load Template",
            (Language::English, TextKey::LoadEnv) => "🔄 2. Merge existing .env",
            (Language::English, TextKey::Save) => "💾 Save as...",
            (Language::English, TextKey::FilterHint) => "🔍 Filter by Key or Description...",
            (Language::English, TextKey::TemplateLbl) => "Template",
            (Language::English, TextKey::TargetLbl) => "Target",
            (Language::English, TextKey::NoneLabel) => "None",
            (Language::English, TextKey::StatusStart) => "Please load a template file (e.g., example.env / env.example)...",
            (Language::English, TextKey::StatusTemplateErr) => "Error: Please load a template file first!",
            (Language::English, TextKey::StatusTemplateOk) => "Template successfully loaded!",
            (Language::English, TextKey::StatusEnvOk) => "Existing .env merged!",
            (Language::English, TextKey::GridDesc) => "📝 Description / Help Text",
            (Language::English, TextKey::GridKey) => "🔑 Key",
            (Language::English, TextKey::GridVal) => "✍️ Value",
            (Language::English, TextKey::NoDesc) => "No description available.",
            (Language::English, TextKey::GenSecret) => "🔑 Generate & Copy Secret",
            (Language::English, TextKey::SecretCopied) => "Cryptographic key generated and copied to clipboard!",
            (Language::English, TextKey::LineEndings) => "Line endings for:",
            (Language::English, TextKey::SecretLenLbl) => "Length:",
            (Language::English, TextKey::ErrOpen) => "Error opening file: {}",
            (Language::English, TextKey::ErrRead) => "Error reading file: {}",
            (Language::English, TextKey::ErrCreate) => "Error creating file: {}",
            (Language::English, TextKey::ErrWrite) => "Error writing file: {}",
            (Language::English, TextKey::ErrBackup) => "Backup failed: {}",
            (Language::English, TextKey::SavedTo) => "Saved to: {}",
            (Language::English, TextKey::CountVars) => "{} variables found.",
            (Language::English, TextKey::CountMerged) => "{} values merged.",
            (Language::English, TextKey::ToggleVisibility) => "Toggle visibility",
            (Language::English, TextKey::SecretHover) => "Generates a secure crypto secret and copies it automatically.",
            (Language::English, TextKey::PickTemplate) => "Select a template file (example.env / env.example)",
            (Language::English, TextKey::PickEnv) => "Select an existing .env",
            (Language::English, TextKey::SaveTitle) => "Save .env",
            (Language::French, TextKey::Title) => "🔒 Éditeur de configuration .env OxiCloud",
            (Language::French, TextKey::LoadTemplate) => "📁 1. Charger le modèle",
            (Language::French, TextKey::LoadEnv) => "🔄 2. Fusionner le .env existant",
            (Language::French, TextKey::Save) => "💾 Enregistrer sous...",
            (Language::French, TextKey::FilterHint) => "🔍 Filtrer par clé ou description...",
            (Language::French, TextKey::TemplateLbl) => "Modèle",
            (Language::French, TextKey::TargetLbl) => "Cible",
            (Language::French, TextKey::NoneLabel) => "Aucun",
            (Language::French, TextKey::StatusStart) => "Veuillez charger un fichier modèle (ex. example.env / env.example)...",
            (Language::French, TextKey::StatusTemplateErr) => "Erreur : Veuillez d'abord charger un fichier modèle !",
            (Language::French, TextKey::StatusTemplateOk) => "Modèle chargé avec succès !",
            (Language::French, TextKey::StatusEnvOk) => ".env existant fusionné !",
            (Language::French, TextKey::GridDesc) => "📝 Description / Aide",
            (Language::French, TextKey::GridKey) => "🔑 Clé",
            (Language::French, TextKey::GridVal) => "✍️ Valeur",
            (Language::French, TextKey::NoDesc) => "Aucune description disponible.",
            (Language::French, TextKey::GenSecret) => "🔑 Générer & copier un secret",
            (Language::French, TextKey::SecretCopied) => "Clé cryptographique générée et copiée dans le presse-papier !",
            (Language::French, TextKey::LineEndings) => "Sauts de ligne pour :",
            (Language::French, TextKey::SecretLenLbl) => "Longueur :",
            (Language::French, TextKey::ErrOpen) => "Erreur d'ouverture : {}",
            (Language::French, TextKey::ErrRead) => "Erreur de lecture : {}",
            (Language::French, TextKey::ErrCreate) => "Erreur de création du fichier : {}",
            (Language::French, TextKey::ErrWrite) => "Erreur d'écriture : {}",
            (Language::French, TextKey::ErrBackup) => "Échec de la sauvegarde : {}",
            (Language::French, TextKey::SavedTo) => "Enregistré sous : {}",
            (Language::French, TextKey::CountVars) => "{} variables trouvées.",
            (Language::French, TextKey::CountMerged) => "{} valeurs fusionnées.",
            (Language::French, TextKey::ToggleVisibility) => "Basculer la visibilité",
            (Language::French, TextKey::SecretHover) => "Génère un secret cryptographique sûr et le copie automatiquement.",
            (Language::French, TextKey::PickTemplate) => "Sélectionner un fichier modèle (example.env / env.example)",
            (Language::French, TextKey::PickEnv) => "Sélectionner un .env existant",
            (Language::French, TextKey::SaveTitle) => "Enregistrer .env",
            (Language::Spanish, TextKey::Title) => "🔒 Editor de configuración .env OxiCloud",
            (Language::Spanish, TextKey::LoadTemplate) => "📁 1. Cargar plantilla",
            (Language::Spanish, TextKey::LoadEnv) => "🔄 2. Fusionar .env existente",
            (Language::Spanish, TextKey::Save) => "💾 Guardar como...",
            (Language::Spanish, TextKey::FilterHint) => "🔍 Filtrar por clave o descripción...",
            (Language::Spanish, TextKey::TemplateLbl) => "Plantilla",
            (Language::Spanish, TextKey::TargetLbl) => "Destino",
            (Language::Spanish, TextKey::NoneLabel) => "Ninguno",
            (Language::Spanish, TextKey::StatusStart) => "Cargue un archivo de plantilla (p. ej., example.env / env.example)...",
            (Language::Spanish, TextKey::StatusTemplateErr) => "Error: ¡Cargue primero un archivo de plantilla!",
            (Language::Spanish, TextKey::StatusTemplateOk) => "¡Plantilla cargada con éxito!",
            (Language::Spanish, TextKey::StatusEnvOk) => "¡.env existente fusionado!",
            (Language::Spanish, TextKey::GridDesc) => "📝 Descripción / Ayuda",
            (Language::Spanish, TextKey::GridKey) => "🔑 Clave",
            (Language::Spanish, TextKey::GridVal) => "✍️ Valor",
            (Language::Spanish, TextKey::NoDesc) => "Sin descripción disponible.",
            (Language::Spanish, TextKey::GenSecret) => "🔑 Generar y copiar secreto",
            (Language::Spanish, TextKey::SecretCopied) => "¡Clave criptográfica generada y copiada al portapapeles!",
            (Language::Spanish, TextKey::LineEndings) => "Saltos de línea para:",
            (Language::Spanish, TextKey::SecretLenLbl) => "Longitud:",
            (Language::Spanish, TextKey::ErrOpen) => "Error al abrir: {}",
            (Language::Spanish, TextKey::ErrRead) => "Error al leer: {}",
            (Language::Spanish, TextKey::ErrCreate) => "Error al crear el archivo: {}",
            (Language::Spanish, TextKey::ErrWrite) => "Error al escribir: {}",
            (Language::Spanish, TextKey::ErrBackup) => "Error en la copia de seguridad: {}",
            (Language::Spanish, TextKey::SavedTo) => "Guardado en: {}",
            (Language::Spanish, TextKey::CountVars) => "{} variables encontradas.",
            (Language::Spanish, TextKey::CountMerged) => "{} valores fusionados.",
            (Language::Spanish, TextKey::ToggleVisibility) => "Alternar visibilidad",
            (Language::Spanish, TextKey::SecretHover) => "Genera un secreto criptográfico seguro y lo copia automáticamente.",
            (Language::Spanish, TextKey::PickTemplate) => "Seleccione un archivo de plantilla (example.env / env.example)",
            (Language::Spanish, TextKey::PickEnv) => "Seleccione un .env existente",
            (Language::Spanish, TextKey::SaveTitle) => "Guardar .env",
            (Language::Italian, TextKey::Title) => "🔒 Editor di configurazione .env OxiCloud",
            (Language::Italian, TextKey::LoadTemplate) => "📁 1. Carica modello",
            (Language::Italian, TextKey::LoadEnv) => "🔄 2. Unisci .env esistente",
            (Language::Italian, TextKey::Save) => "💾 Salva come...",
            (Language::Italian, TextKey::FilterHint) => "🔍 Filtra per chiave o descrizione...",
            (Language::Italian, TextKey::TemplateLbl) => "Modello",
            (Language::Italian, TextKey::TargetLbl) => "Destinazione",
            (Language::Italian, TextKey::NoneLabel) => "Nessuno",
            (Language::Italian, TextKey::StatusStart) => "Carica un file modello (es. example.env / env.example)...",
            (Language::Italian, TextKey::StatusTemplateErr) => "Errore: caricare prima un file modello!",
            (Language::Italian, TextKey::StatusTemplateOk) => "Modello caricato con successo!",
            (Language::Italian, TextKey::StatusEnvOk) => ".env esistente unito!",
            (Language::Italian, TextKey::GridDesc) => "📝 Descrizione / Aiuto",
            (Language::Italian, TextKey::GridKey) => "🔑 Chiave",
            (Language::Italian, TextKey::GridVal) => "✍️ Valore",
            (Language::Italian, TextKey::NoDesc) => "Nessuna descrizione disponibile.",
            (Language::Italian, TextKey::GenSecret) => "🔑 Genera e copia segreto",
            (Language::Italian, TextKey::SecretCopied) => "Chiave crittografica generata e copiata negli appunti!",
            (Language::Italian, TextKey::LineEndings) => "Fine riga per:",
            (Language::Italian, TextKey::SecretLenLbl) => "Lunghezza:",
            (Language::Italian, TextKey::ErrOpen) => "Errore di apertura: {}",
            (Language::Italian, TextKey::ErrRead) => "Errore di lettura: {}",
            (Language::Italian, TextKey::ErrCreate) => "Errore di creazione del file: {}",
            (Language::Italian, TextKey::ErrWrite) => "Errore di scrittura: {}",
            (Language::Italian, TextKey::ErrBackup) => "Backup non riuscito: {}",
            (Language::Italian, TextKey::SavedTo) => "Salvato in: {}",
            (Language::Italian, TextKey::CountVars) => "{} variabili trovate.",
            (Language::Italian, TextKey::CountMerged) => "{} valori uniti.",
            (Language::Italian, TextKey::ToggleVisibility) => "Cambia visibilità",
            (Language::Italian, TextKey::SecretHover) => "Genera un segreto crittografico sicuro e lo copia automaticamente.",
            (Language::Italian, TextKey::PickTemplate) => "Seleziona un file modello (example.env / env.example)",
            (Language::Italian, TextKey::PickEnv) => "Seleziona un .env esistente",
            (Language::Italian, TextKey::SaveTitle) => "Salva .env",
        }
    }

    /// The phrase whose catalogue key is `key`, or `"?"` for a key that the
    /// catalogue does not hold.
    pub fn translate(&self, key: &str) -> (s: &'static str)
        ensures
            s@ == translation(*self, key@),
    {
        match find_key(key) {
            Some(k) => self.phrase_of(k),
            None => "?",
        }
    }
}


// ---------------------------------------------------------------------------
//  Placeholders
// ---------------------------------------------------------------------------

/// The keys whose phrase takes a value in place of `{}`: the file errors,
/// the saved path and the two counts.
pub open spec fn fills_value(k: TextKey) -> bool {
    ||| k == TextKey::ErrOpen
    ||| k == TextKey::ErrRead
    ||| k == TextKey::ErrCreate
    ||| k == TextKey::ErrWrite
    ||| k == TextKey::ErrBackup
    ||| k == TextKey::SavedTo
    ||| k == TextKey::CountVars
    ||| k == TextKey::CountMerged
}

/// `p` holds `{}` exactly once.
pub open spec fn one_placeholder(p: Seq<char>) -> bool {
    exists|i: int|
        occurs_at(p, "{}"@, i) && forall|j: int| #[trigger] occurs_at(p, "{}"@, j) ==> j == i
}

/// What holds of the placeholders of phrase `k` in language `l`.
pub open spec fn placeholders_fit(l: Language, k: TextKey) -> bool {
    if fills_value(k) {
        one_placeholder(phrase(l, k))
    } else {
        !contains_seq(phrase(l, k), "{}"@)
    }
}

proof fn lemma_no_brace(s: Seq<char>)
    requires
        forall|j: int| 0 <= j < s.len() ==> s[j] != '{',
    ensures
        !contains_seq(s, "{}"@),
{
    reveal_strlit("{}");
    if contains_seq(s, "{}"@) {
        let i = choose|i: int| occurs_at(s, "{}"@, i);
        assert(s.subrange(i, i + 2)[0] == '{');
    }
}

proof fn lemma_one_brace(s: Seq<char>, i: int)
    requires
        0 <= i,
        i + 1 < s.len(),
        s[i] == '{',
        s[i + 1] == '}',
        forall|j: int| 0 <= j < s.len() && j != i ==> s[j] != '{',
    ensures
        one_placeholder(s),
{
    reveal_strlit("{}");
    assert(s.subrange(i, i + 2) =~= "{}"@);
    assert(occurs_at(s, "{}"@, i));
    assert forall|j: int| #[trigger] occurs_at(s, "{}"@, j) implies j == i by {
        assert(s.subrange(j, j + 2)[0] == '{');
    }
}

/// The placeholders of the German phrases.
proof fn lemma_placeholders_german(k: TextKey)
    ensures
        placeholders_fit(Language::German, k),
{
    match k {
        TextKey::Title => {
            reveal_strlit("🔒 OxiCloud .env Konfigurations-Editor");
            lemma_no_brace(phrase(Language::German, k));
        },
        TextKey::LoadTemplate => {
            reveal_strlit("📁 1. Vorlage laden");
            lemma_no_brace(phrase(Language::German, k));
        },
        TextKey::LoadEnv => {
            reveal_strlit("🔄 2. Bestehende .env dazuladen");
            lemma_no_brace(phrase(Language::German, k));
        },
        TextKey::Save => {
            reveal_strlit("💾 Speichern unter...");
            lemma_no_brace(phrase(Language::German, k));
        },
        TextKey::FilterHint => {
            reveal_strlit("🔍 Filter nach Key oder Beschreibung...");
            lemma_no_brace(phrase(Language::German, k));
        },
        TextKey::TemplateLbl => {
            reveal_strlit("Vorlage");
            lemma_no_brace(phrase(Language::German, k));
        },
        TextKey::TargetLbl => {
            reveal_strlit("Ziel");
            lemma_no_brace(phrase(Language::German, k));
        },
        TextKey::NoneLabel => {
            reveal_strlit("Keine");
            lemma_no_brace(phrase(Language::German, k));
        },
        TextKey::StatusStart => {
            reveal_strlit("Bitte laden Sie eine Template-Datei (z.B. example.env / env.example)...");
            lemma_no_brace(phrase(Language::German, k));
        },
        TextKey::StatusTemplateErr => {
            reveal_strlit("Fehler: Laden Sie zuerst eine Template-Datei!");
            lemma_no_brace(phrase(Language::German, k));
        },
        TextKey::StatusTemplateOk => {
            reveal_strlit("Template erfolgreich geladen!");
            lemma_no_brace(phrase(Language::German, k));
        },
        TextKey::StatusEnvOk => {
            reveal_strlit("Bestehende .env abgeglichen!");
            lemma_no_brace(phrase(Language::German, k));
        },
        TextKey::GridDesc => {
            reveal_strlit("📝 Beschreibung / Hilfetext");
            lemma_no_brace(phrase(Language::German, k));
        },
        TextKey::GridKey => {
            reveal_strlit("🔑 Schlüssel (Key)");
            lemma_no_brace(phrase(Language::German, k));
        },
        TextKey::GridVal => {
            reveal_strlit("✍️ Wert (Value)");
            lemma_no_brace(phrase(Language::German, k));
        },
        TextKey::NoDesc => {
            reveal_strlit("Keine Beschreibung vorhanden.");
            lemma_no_brace(phrase(Language::German, k));
        },
        TextKey::GenSecret => {
            reveal_strlit("🔑 Secret generieren & kopieren");
            lemma_no_brace(phrase(Language::German, k));
        },
        TextKey::SecretCopied => {
            reveal_strlit("Kryptografischer Schlüssel generiert und in die Zwischenablage kopiert!");
            lemma_no_brace(phrase(Language::German, k));
        },
        TextKey::LineEndings => {
            reveal_strlit("Zeilenumbrüche für:");
            lemma_no_brace(phrase(Language::German, k));
        },
        TextKey::SecretLenLbl => {
            reveal_strlit("Länge:");
            lemma_no_brace(phrase(Language::German, k));
        },
        TextKey::ErrOpen => {
            reveal_strlit("Fehler beim Öffnen: {}");
            lemma_one_brace(phrase(Language::German, k), 20);
        },
        TextKey::ErrRead => {
            reveal_strlit("Fehler beim Lesen: {}");
            lemma_one_brace(phrase(Language::German, k), 19);
        },
        TextKey::ErrCreate => {
            reveal_strlit("Fehler beim Erstellen der Datei: {}");
            lemma_one_brace(phrase(Language::German, k), 33);
        },
        TextKey::ErrWrite => {
            reveal_strlit("Fehler beim Schreiben: {}");
            lemma_one_brace(phrase(Language::German, k), 23);
        },
        TextKey::ErrBackup => {
            reveal_strlit("Backup fehlgeschlagen: {}");
            lemma_one_brace(phrase(Language::German, k), 23);
        },
        TextKey::SavedTo => {
            reveal_strlit("Gespeichert unter: {}");
            lemma_one_brace(phrase(Language::German, k), 19);
        },
        TextKey::CountVars => {
            reveal_strlit("{} Variablen gefunden.");
            lemma_one_brace(phrase(Language::German, k), 0);
        },
        TextKey::CountMerged => {
            reveal_strlit("{} Werte übernommen.");
            lemma_one_brace(phrase(Language::German, k), 0);
        },
        TextKey::ToggleVisibility => {
            reveal_strlit("Sichtbarkeit umschalten");
            lemma_no_brace(phrase(Language::German, k));
        },
        TextKey::SecretHover => {
            reveal_strlit("Generiert ein sicheres Krypto-Secret und kopiert es automatisch.");
            lemma_no_brace(phrase(Language::German, k));
        },
        TextKey::PickTemplate => {
            reveal_strlit("Wähle eine Template-Datei (example.env / env.example)");
            lemma_no_brace(phrase(Language::German, k));
        },
        TextKey::PickEnv => {
            reveal_strlit("Wähle eine existierende .env");
            lemma_no_brace(phrase(Language::German, k));
        },
        TextKey::SaveTitle => {
            reveal_strlit(".env Speichern");
            lemma_no_brace(phrase(Language::German, k));
        },
    }
}

/// The placeholders of the English phrases.
proof fn lemma_placeholders_english(k: TextKey)
    ensures
        placeholders_fit(Language::English, k),
{
    match k {
        TextKey::Title => {
            reveal_strlit("🔒 OxiCloud .env Configuration Editor");
            lemma_no_brace(phrase(Language::English, k));
        },
        TextKey::LoadTemplate => {
            reveal_strlit("📁 1. Load Template");
            lemma_no_brace(phrase(Language::English, k));
        },
        TextKey::LoadEnv => {
            reveal_strlit("🔄 2. Merge existing .env");
            lemma_no_brace(phrase(Language::English, k));
        },
        TextKey::Save => {
            reveal_strlit("💾 Save as...");
            lemma_no_brace(phrase(Language::English, k));
        },
        TextKey::FilterHint => {
            reveal_strlit("🔍 Filter by Key or Description...");
            lemma_no_brace(phrase(Language::English, k));
        },
        TextKey::TemplateLbl => {
            reveal_strlit("Template");
            lemma_no_brace(phrase(Language::English, k));
        },
        TextKey::TargetLbl => {
            reveal_strlit("Target");
            lemma_no_brace(phrase(Language::English, k));
        },
        TextKey::NoneLabel => {
            reveal_strlit("None");
            lemma_no_brace(phrase(Language::English, k));
        },
        TextKey::StatusStart => {
            reveal_strlit("Please load a template file (e.g., example.env / env.example)...");
            lemma_no_brace(phrase(Language::English, k));
        },
        TextKey::StatusTemplateErr => {
            reveal_strlit("Error: Please load a template file first!");
            lemma_no_brace(phrase(Language::English, k));
        },
        TextKey::StatusTemplateOk => {
            reveal_strlit("Template successfully loaded!");
            lemma_no_brace(phrase(Language::English, k));
        },
        TextKey::StatusEnvOk => {
            reveal_strlit("Existing .env merged!");
            lemma_no_brace(phrase(Language::English, k));
        },
        TextKey::GridDesc => {
            reveal_strlit("📝 Description / Help Text");
            lemma_no_brace(phrase(Language::English, k));
        },
        TextKey::GridKey => {
            reveal_strlit("🔑 Key");
            lemma_no_brace(phrase(Language::English, k));
        },
        TextKey::GridVal => {
            reveal_strlit("✍️ Value");
            lemma_no_brace(phrase(Language::English, k));
        },
        TextKey::NoDesc => {
            reveal_strlit("No description available.");
            lemma_no_brace(phrase(Language::English, k));
        },
        TextKey::GenSecret => {
            reveal_strlit("🔑 Generate & Copy Secret");
            lemma_no_brace(phrase(Language::English, k));
        },
        TextKey::SecretCopied => {
            reveal_strlit("Cryptographic key generated and copied to clipboard!");
            lemma_no_brace(phrase(Language::English, k));
        },
        TextKey::LineEndings => {
            reveal_strlit("Line endings for:");
            lemma_no_brace(phrase(Language::English, k));
        },
        TextKey::SecretLenLbl => {
            reveal_strlit("Length:");
            lemma_no_brace(phrase(Language::English, k));
        },
        TextKey::ErrOpen => {
            reveal_strlit("Error opening file: {}");
            lemma_one_brace(phrase(Language::English, k), 20);
        },
        TextKey::ErrRead => {
            reveal_strlit("Error reading file: {}");
            lemma_one_brace(phrase(Language::English, k), 20);
        },
        TextKey::ErrCreate => {
            reveal_strlit("Error creating file: {}");
            lemma_one_brace(phrase(Language::English, k), 21);
        },
        TextKey::ErrWrite => {
            reveal_strlit("Error writing file: {}");
            lemma_one_brace(phrase(Language::English, k), 20);
        },
        TextKey::ErrBackup => {
            reveal_strlit("Backup failed: {}");
            lemma_one_brace(phrase(Language::English, k), 15);
        },
        TextKey::SavedTo => {
            reveal_strlit("Saved to: {}");
            lemma_one_brace(phrase(Language::English, k), 10);
        },
        TextKey::CountVars => {
            reveal_strlit("{} variables found.");
            lemma_one_brace(phrase(Language::English, k), 0);
        },
        TextKey::CountMerged => {
            reveal_strlit("{} values merged.");
            lemma_one_brace(phrase(Language::English, k), 0);
        },
        TextKey::ToggleVisibility => {
            reveal_strlit("Toggle visibility");
            lemma_no_brace(phrase(Language::English, k));
        },
        TextKey::SecretHover => {
            reveal_strlit("Generates a secure crypto secret and copies it automatically.");
            lemma_no_brace(phrase(Language::English, k));
        },
        TextKey::PickTemplate => {
            reveal_strlit("Select a template file (example.env / env.example)");
            lemma_no_brace(phrase(Language::English, k));
        },
        TextKey::PickEnv => {
            reveal_strlit("Select an existing .env");
            lemma_no_brace(phrase(Language::English, k));
        },
        TextKey::SaveTitle => {
            reveal_strlit("Save .env");
            lemma_no_brace(phrase(Language::English, k));
        },
    }
}

/// The placeholders of the French phrases.
proof fn lemma_placeholders_french(k: TextKey)
    ensures
        placeholders_fit(Language::French, k),
{
    match k {
        TextKey::Title => {
            reveal_strlit("🔒 Éditeur de configuration .env OxiCloud");
            lemma_no_brace(phrase(Language::French, k));
        },
        TextKey::LoadTemplate => {
            reveal_strlit("📁 1. Charger le modèle");
            lemma_no_brace(phrase(Language::French, k));
        },
        TextKey::LoadEnv => {
            reveal_strlit("🔄 2. Fusionner le .env existant");
            lemma_no_brace(phrase(Language::French, k));
        },
        TextKey::Save => {
            reveal_strlit("💾 Enregistrer sous...");
            lemma_no_brace(phrase(Language::French, k));
        },
        TextKey::FilterHint => {
            reveal_strlit("🔍 Filtrer par clé ou description...");
            lemma_no_brace(phrase(Language::French, k));
        },
        TextKey::TemplateLbl => {
            reveal_strlit("Modèle");
            lemma_no_brace(phrase(Language::French, k));
        },
        TextKey::TargetLbl => {
            reveal_strlit("Cible");
            lemma_no_brace(phrase(Language::French, k));
        },
        TextKey::NoneLabel => {
            reveal_strlit("Aucun");
            lemma_no_brace(phrase(Language::French, k));
        },
        TextKey::StatusStart => {
            reveal_strlit("Veuillez charger un fichier modèle (ex. example.env / env.example)...");
            lemma_no_brace(phrase(Language::French, k));
        },
        TextKey::StatusTemplateErr => {
            reveal_strlit("Erreur : Veuillez d'abord charger un fichier modèle !");
            lemma_no_brace(phrase(Language::French, k));
        },
        TextKey::StatusTemplateOk => {
            reveal_strlit("Modèle chargé avec succès !");
            lemma_no_brace(phrase(Language::French, k));
        },
        TextKey::StatusEnvOk => {
            reveal_strlit(".env existant fusionné !");
            lemma_no_brace(phrase(Language::French, k));
        },
        TextKey::GridDesc => {
            reveal_strlit("📝 Description / Aide");
            lemma_no_brace(phrase(Language::French, k));
        },
        TextKey::GridKey => {
            reveal_strlit("🔑 Clé");
            lemma_no_brace(phrase(Language::French, k));
        },
        TextKey::GridVal => {
            reveal_strlit("✍️ Valeur");
            lemma_no_brace(phrase(Language::French, k));
        },
        TextKey::NoDesc => {
            reveal_strlit("Aucune description disponible.");
            lemma_no_brace(phrase(Language::French, k));
        },
        TextKey::GenSecret => {
            reveal_strlit("🔑 Générer & copier un secret");
            lemma_no_brace(phrase(Language::French, k));
        },
        TextKey::SecretCopied => {
            reveal_strlit("Clé cryptographique générée et copiée dans le presse-papier !");
            lemma_no_brace(phrase(Language::French, k));
        },
        TextKey::LineEndings => {
            reveal_strlit("Sauts de ligne pour :");
            lemma_no_brace(phrase(Language::French, k));
        },
        TextKey::SecretLenLbl => {
            reveal_strlit("Longueur :");
            lemma_no_brace(phrase(Language::French, k));
        },
        TextKey::ErrOpen => {
            reveal_strlit("Erreur d'ouverture : {}");
            lemma_one_brace(phrase(Language::French, k), 21);
        },
        TextKey::ErrRead => {
            reveal_strlit("Erreur de lecture : {}");
            lemma_one_brace(phrase(Language::French, k), 20);
        },
        TextKey::ErrCreate => {
            reveal_strlit("Erreur de création du fichier : {}");
            lemma_one_brace(phrase(Language::French, k), 32);
        },
        TextKey::ErrWrite => {
            reveal_strlit("Erreur d'écriture : {}");
            lemma_one_brace(phrase(Language::French, k), 20);
        },
        TextKey::ErrBackup => {
            reveal_strlit("Échec de la sauvegarde : {}");
            lemma_one_brace(phrase(Language::French, k), 25);
        },
        TextKey::SavedTo => {
            reveal_strlit("Enregistré sous : {}");
            lemma_one_brace(phrase(Language::French, k), 18);
        },
        TextKey::CountVars => {
            reveal_strlit("{} variables trouvées.");
            lemma_one_brace(phrase(Language::French, k), 0);
        },
        TextKey::CountMerged => {
            reveal_strlit("{} valeurs fusionnées.");
            lemma_one_brace(phrase(Language::French, k), 0);
        },
        TextKey::ToggleVisibility => {
            reveal_strlit("Basculer la visibilité");
            lemma_no_brace(phrase(Language::French, k));
        },
        TextKey::SecretHover => {
            reveal_strlit("Génère un secret cryptographique sûr et le copie automatiquement.");
            lemma_no_brace(phrase(Language::French, k));
        },
        TextKey::PickTemplate => {
            reveal_strlit("Sélectionner un fichier modèle (example.env / env.example)");
            lemma_no_brace(phrase(Language::French, k));
        },
        TextKey::PickEnv => {
            reveal_strlit("Sélectionner un .env existant");
            lemma_no_brace(phrase(Language::French, k));
        },
        TextKey::SaveTitle => {
            reveal_strlit("Enregistrer .env");
            lemma_no_brace(phrase(Language::French, k));
        },
    }
}

/// The placeholders of the Spanish phrases.
proof fn lemma_placeholders_spanish(k: TextKey)
    ensures
        placeholders_fit(Language::Spanish, k),
{
    match k {
        TextKey::Title => {
            reveal_strlit("🔒 Editor de configuración .env OxiCloud");
            lemma_no_brace(phrase(Language::Spanish, k));
        },
        TextKey::LoadTemplate => {
            reveal_strlit("📁 1. Cargar plantilla");
            lemma_no_brace(phrase(Language::Spanish, k));
        },
        TextKey::LoadEnv => {
            reveal_strlit("🔄 2. Fusionar .env existente");
            lemma_no_brace(phrase(Language::Spanish, k));
        },
        TextKey::Save => {
            reveal_strlit("💾 Guardar como...");
            lemma_no_brace(phrase(Language::Spanish, k));
        },
        TextKey::FilterHint => {
            reveal_strlit("🔍 Filtrar por clave o descripción...");
            lemma_no_brace(phrase(Language::Spanish, k));
        },
        TextKey::TemplateLbl => {
            reveal_strlit("Plantilla");
            lemma_no_brace(phrase(Language::Spanish, k));
        },
        TextKey::TargetLbl => {
            reveal_strlit("Destino");
            lemma_no_brace(phrase(Language::Spanish, k));
        },
        TextKey::NoneLabel => {
            reveal_strlit("Ninguno");
            lemma_no_brace(phrase(Language::Spanish, k));
        },
        TextKey::StatusStart => {
            reveal_strlit("Cargue un archivo de plantilla (p. ej., example.env / env.example)...");
            lemma_no_brace(phrase(Language::Spanish, k));
        },
        TextKey::StatusTemplateErr => {
            reveal_strlit("Error: ¡Cargue primero un archivo de plantilla!");
            lemma_no_brace(phrase(Language::Spanish, k));
        },
        TextKey::StatusTemplateOk => {
            reveal_strlit("¡Plantilla cargada con éxito!");
            lemma_no_brace(phrase(Language::Spanish, k));
        },
        TextKey::StatusEnvOk => {
            reveal_strlit("¡.env existente fusionado!");
            lemma_no_brace(phrase(Language::Spanish, k));
        },
        TextKey::GridDesc => {
            reveal_strlit("📝 Descripción / Ayuda");
            lemma_no_brace(phrase(Language::Spanish, k));
        },
        TextKey::GridKey => {
            reveal_strlit("🔑 Clave");
            lemma_no_brace(phrase(Language::Spanish, k));
        },
        TextKey::GridVal => {
            reveal_strlit("✍️ Valor");
            lemma_no_brace(phrase(Language::Spanish, k));
        },
        TextKey::NoDesc => {
            reveal_strlit("Sin descripción disponible.");
            lemma_no_brace(phrase(Language::Spanish, k));
        },
        TextKey::GenSecret => {
            reveal_strlit("🔑 Generar y copiar secreto");
            lemma_no_brace(phrase(Language::Spanish, k));
        },
        TextKey::SecretCopied => {
            reveal_strlit("¡Clave criptográfica generada y copiada al portapapeles!");
            lemma_no_brace(phrase(Language::Spanish, k));
        },
        TextKey::LineEndings => {
            reveal_strlit("Saltos de línea para:");
            lemma_no_brace(phrase(Language::Spanish, k));
        },
        TextKey::SecretLenLbl => {
            reveal_strlit("Longitud:");
            lemma_no_brace(phrase(Language::Spanish, k));
        },
        TextKey::ErrOpen => {
            reveal_strlit("Error al abrir: {}");
            lemma_one_brace(phrase(Language::Spanish, k), 16);
        },
        TextKey::ErrRead => {
            reveal_strlit("Error al leer: {}");
            lemma_one_brace(phrase(Language::Spanish, k), 15);
        },
        TextKey::ErrCreate => {
            reveal_strlit("Error al crear el archivo: {}");
            lemma_one_brace(phrase(Language::Spanish, k), 27);
        },
        TextKey::ErrWrite => {
            reveal_strlit("Error al escribir: {}");
            lemma_one_brace(phrase(Language::Spanish, k), 19);
        },
        TextKey::ErrBackup => {
            reveal_strlit("Error en la copia de seguridad: {}");
            lemma_one_brace(phrase(Language::Spanish, k), 32);
        },
        TextKey::SavedTo => {
            reveal_strlit("Guardado en: {}");
            lemma_one_brace(phrase(Language::Spanish, k), 13);
        },
        TextKey::CountVars => {
            reveal_strlit("{} variables encontradas.");
            lemma_one_brace(phrase(Language::Spanish, k), 0);
        },
        TextKey::CountMerged => {
            reveal_strlit("{} valores fusionados.");
            lemma_one_brace(phrase(Language::Spanish, k), 0);
        },
        TextKey::ToggleVisibility => {
            reveal_strlit("Alternar visibilidad");
            lemma_no_brace(phrase(Language::Spanish, k));
        },
        TextKey::SecretHover => {
            reveal_strlit("Genera un secreto criptográfico seguro y lo copia automáticamente.");
            lemma_no_brace(phrase(Language::Spanish, k));
        },
        TextKey::PickTemplate => {
            reveal_strlit("Seleccione un archivo de plantilla (example.env / env.example)");
            lemma_no_brace(phrase(Language::Spanish, k));
        },
        TextKey::PickEnv => {
            reveal_strlit("Seleccione un .env existente");
            lemma_no_brace(phrase(Language::Spanish, k));
        },
        TextKey::SaveTitle => {
            reveal_strlit("Guardar .env");
            lemma_no_brace(phrase(Language::Spanish, k));
        },
    }
}

/// The placeholders of the Italian phrases.
proof fn lemma_placeholders_italian(k: TextKey)
    ensures
        placeholders_fit(Language::Italian, k),
{
    match k {
        TextKey::Title => {
            reveal_strlit("🔒 Editor di configurazione .env OxiCloud");
            lemma_no_brace(phrase(Language::Italian, k));
        },
        TextKey::LoadTemplate => {
            reveal_strlit("📁 1. Carica modello");
            lemma_no_brace(phrase(Language::Italian, k));
        },
        TextKey::LoadEnv => {
            reveal_strlit("🔄 2. Unisci .env esistente");
            lemma_no_brace(phrase(Language::Italian, k));
        },
        TextKey::Save => {
            reveal_strlit("💾 Salva come...");
            lemma_no_brace(phrase(Language::Italian, k));
        },
        TextKey::FilterHint => {
            reveal_strlit("🔍 Filtra per chiave o descrizione...");
            lemma_no_brace(phrase(Language::Italian, k));
        },
        TextKey::TemplateLbl => {
            reveal_strlit("Modello");
            lemma_no_brace(phrase(Language::Italian, k));
        },
        TextKey::TargetLbl => {
            reveal_strlit("Destinazione");
            lemma_no_brace(phrase(Language::Italian, k));
        },
        TextKey::NoneLabel => {
            reveal_strlit("Nessuno");
            lemma_no_brace(phrase(Language::Italian, k));
        },
        TextKey::StatusStart => {
            reveal_strlit("Carica un file modello (es. example.env / env.example)...");
            lemma_no_brace(phrase(Language::Italian, k));
        },
        TextKey::StatusTemplateErr => {
            reveal_strlit("Errore: caricare prima un file modello!");
            lemma_no_brace(phrase(Language::Italian, k));
        },
        TextKey::StatusTemplateOk => {
            reveal_strlit("Modello caricato con successo!");
            lemma_no_brace(phrase(Language::Italian, k));
        },
        TextKey::StatusEnvOk => {
            reveal_strlit(".env esistente unito!");
            lemma_no_brace(phrase(Language::Italian, k));
        },
        TextKey::GridDesc => {
            reveal_strlit("📝 Descrizione / Aiuto");
            lemma_no_brace(phrase(Language::Italian, k));
        },
        TextKey::GridKey => {
            reveal_strlit("🔑 Chiave");
            lemma_no_brace(phrase(Language::Italian, k));
        },
        TextKey::GridVal => {
            reveal_strlit("✍️ Valore");
            lemma_no_brace(phrase(Language::Italian, k));
        },
        TextKey::NoDesc => {
            reveal_strlit("Nessuna descrizione disponibile.");
            lemma_no_brace(phrase(Language::Italian, k));
        },
        TextKey::GenSecret => {
            reveal_strlit("🔑 Genera e copia segreto");
            lemma_no_brace(phrase(Language::Italian, k));
        },
        TextKey::SecretCopied => {
            reveal_strlit("Chiave crittografica generata e copiata negli appunti!");
            lemma_no_brace(phrase(Language::Italian, k));
        },
        TextKey::LineEndings => {
            reveal_strlit("Fine riga per:");
            lemma_no_brace(phrase(Language::Italian, k));
        },
        TextKey::SecretLenLbl => {
            reveal_strlit("Lunghezza:");
            lemma_no_brace(phrase(Language::Italian, k));
        },
        TextKey::ErrOpen => {
            reveal_strlit("Errore di apertura: {}");
            lemma_one_brace(phrase(Language::Italian, k), 20);
        },
        TextKey::ErrRead => {
            reveal_strlit("Errore di lettura: {}");
            lemma_one_brace(phrase(Language::Italian, k), 19);
        },
        TextKey::ErrCreate => {
            reveal_strlit("Errore di creazione del file: {}");
            lemma_one_brace(phrase(Language::Italian, k), 30);
        },
        TextKey::ErrWrite => {
            reveal_strlit("Errore di scrittura: {}");
            lemma_one_brace(phrase(Language::Italian, k), 21);
        },
        TextKey::ErrBackup => {
            reveal_strlit("Backup non riuscito: {}");
            lemma_one_brace(phrase(Language::Italian, k), 21);
        },
        TextKey::SavedTo => {
            reveal_strlit("Salvato in: {}");
            lemma_one_brace(phrase(Language::Italian, k), 12);
        },
        TextKey::CountVars => {
            reveal_strlit("{} variabili trovate.");
            lemma_one_brace(phrase(Language::Italian, k), 0);
        },
        TextKey::CountMerged => {
            reveal_strlit("{} valori uniti.");
            lemma_one_brace(phrase(Language::Italian, k), 0);
        },
        TextKey::ToggleVisibility => {
            reveal_strlit("Cambia visibilità");
            lemma_no_brace(phrase(Language::Italian, k));
        },
        TextKey::SecretHover => {
            reveal_strlit("Genera un segreto crittografico sicuro e lo copia automaticamente.");
            lemma_no_brace(phrase(Language::Italian, k));
        },
        TextKey::PickTemplate => {
            reveal_strlit("Seleziona un file modello (example.env / env.example)");
            lemma_no_brace(phrase(Language::Italian, k));
        },
        TextKey::PickEnv => {
            reveal_strlit("Seleziona un .env esistente");
            lemma_no_brace(phrase(Language::Italian, k));
        },
        TextKey::SaveTitle => {
            reveal_strlit("Salva .env");
            lemma_no_brace(phrase(Language::Italian, k));
        },
    }
}

/// Exactly the file errors, the saved path and the two counts hold one
/// `{}` for a value, in every language, and no other phrase holds one: a
/// value put in place of `{}` appears exactly once, and only there.
pub proof fn law_placeholders(l: Language, k: TextKey)
    ensures
        placeholders_fit(l, k),
{
    match l {
        Language::German => lemma_placeholders_german(k),
        Language::English => lemma_placeholders_english(k),
        Language::French => lemma_placeholders_french(k),
        Language::Spanish => lemma_placeholders_spanish(k),
        Language::Italian => lemma_placeholders_italian(k),
    }
}

} // verus!
