use vstd::prelude::*;
use vstd::string::StringSliceAdditionalSpecFns;

verus! {

// General Categories of the Unicode Character Database, version 15.1.0, as the
// table that `encode_table` writes, cut into parts of at most 400 entries. An
// entry is the first and the last code point of a range in eight hexadecimal
// digits, then the two-letter code of its category. Code points that the
// database lists nowhere, such as the inner code points of the ranges that it
// gives by their first and last line, have no entry.

/// The number of parts of the table.
pub const UNICODE_TABLE_PARTS: usize = 9;

pub const UNICODE_TABLE_0: &'static str = "\
    000000000000001FCc\
    0000002000000020Zs\
    0000002100000023Po\
    0000002400000024Sc\
    0000002500000027Po\
    0000002800000028Ps\
    0000002900000029Pe\
    0000002A0000002APo\
    0000002B0000002BSm\
    0000002C0000002CPo\
    0000002D0000002DPd\
    0000002E0000002FPo\
    0000003000000039Nd\
    0000003A0000003BPo\
    0000003C0000003ESm\
    0000003F00000040Po\
    000000410000005ALu\
    0000005B0000005BPs\
    0000005C0000005CPo\
    0000005D0000005DPe\
    0000005E0000005ESk\
    0000005F0000005FPc\
    0000006000000060Sk\
    000000610000007ALl\
    0000007B0000007BPs\
    0000007C0000007CSm\
    0000007D0000007DPe\
    0000007E0000007ESm\
    0000007F0000009FCc\
    000000A0000000A0Zs\
    000000A1000000A1Po\
    000000A2000000A5Sc\
    000000A6000000A6So\
    000000A7000000A7Po\
    000000A8000000A8Sk\
    000000A9000000A9So\
    000000AA000000AALo\
    000000AB000000ABPi\
    000000AC000000ACSm\
    000000AD000000ADCf\
    000000AE000000AESo\
    000000AF000000AFSk\
    000000B0000000B0So\
    000000B1000000B1Sm\
    000000B2000000B3No\
    000000B4000000B4Sk\
    000000B5000000B5Ll\
    000000B6000000B7Po\
    000000B8000000B8Sk\
    000000B9000000B9No\
    000000BA000000BALo\
    000000BB000000BBPf\
    000000BC000000BENo\
    000000BF000000BFPo\
    000000C0000000D6Lu\
    000000D7000000D7Sm\
    000000D8000000DELu\
    000000DF000000F6Ll\
    000000F7000000F7Sm\
    000000F8000000FFLl\
    0000010000000100Lu\
    0000010100000101Ll\
    0000010200000102Lu\
    0000010300000103Ll\
    0000010400000104Lu\
    0000010500000105Ll\
    0000010600000106Lu\
    0000010700000107Ll\
    0000010800000108Lu\
    0000010900000109Ll\
    0000010A0000010ALu\
    0000010B0000010BLl\
    0000010C0000010CLu\
    0000010D0000010DLl\
    0000010E0000010ELu\
    0000010F0000010FLl\
    0000011000000110Lu\
    0000011100000111Ll\
    0000011200000112Lu\
    0000011300000113Ll\
    0000011400000114Lu\
    0000011500000115Ll\
    0000011600000116Lu\
    0000011700000117Ll\
    0000011800000118Lu\
    0000011900000119Ll\
    0000011A0000011ALu\
    0000011B0000011BLl\
    0000011C0000011CLu\
    0000011D0000011DLl\
    0000011E0000011ELu\
    0000011F0000011FLl\
    0000012000000120Lu\
    0000012100000121Ll\
    0000012200000122Lu\
    0000012300000123Ll\
    0000012400000124Lu\
    0000012500000125Ll\
    0000012600000126Lu\
    0000012700000127Ll\
    0000012800000128Lu\
    0000012900000129Ll\
    0000012A0000012ALu\
    0000012B0000012BLl\
    0000012C0000012CLu\
    0000012D0000012DLl\
    0000012E0000012ELu\
    0000012F0000012FLl\
    0000013000000130Lu\
    0000013100000131Ll\
    0000013200000132Lu\
    0000013300000133Ll\
    0000013400000134Lu\
    0000013500000135Ll\
    0000013600000136Lu\
    0000013700000138Ll\
    0000013900000139Lu\
    0000013A0000013ALl\
    0000013B0000013BLu\
    0000013C0000013CLl\
    0000013D0000013DLu\
    0000013E0000013ELl\
    0000013F0000013FLu\
    0000014000000140Ll\
    0000014100000141Lu\
    0000014200000142Ll\
    0000014300000143Lu\
    0000014400000144Ll\
    0000014500000145Lu\
    0000014600000146Ll\
    0000014700000147Lu\
    0000014800000149Ll\
    0000014A0000014ALu\
    0000014B0000014BLl\
    0000014C0000014CLu\
    0000014D0000014DLl\
    0000014E0000014ELu\
    0000014F0000014FLl\
    0000015000000150Lu\
    0000015100000151Ll\
    0000015200000152Lu\
    0000015300000153Ll\
    0000015400000154Lu\
    0000015500000155Ll\
    0000015600000156Lu\
    0000015700000157Ll\
    0000015800000158Lu\
    0000015900000159Ll\
    0000015A0000015ALu\
    0000015B0000015BLl\
    0000015C0000015CLu\
    0000015D0000015DLl\
    0000015E0000015ELu\
    0000015F0000015FLl\
    0000016000000160Lu\
    0000016100000161Ll\
    0000016200000162Lu\
    0000016300000163Ll\
    0000016400000164Lu\
    0000016500000165Ll\
    0000016600000166Lu\
    0000016700000167Ll\
    0000016800000168Lu\
    0000016900000169Ll\
    0000016A0000016ALu\
    0000016B0000016BLl\
    0000016C0000016CLu\
    0000016D0000016DLl\
    0000016E0000016ELu\
    0000016F0000016FLl\
    0000017000000170Lu\
    0000017100000171Ll\
    0000017200000172Lu\
    0000017300000173Ll\
    0000017400000174Lu\
    0000017500000175Ll\
    0000017600000176Lu\
    0000017700000177Ll\
    0000017800000179Lu\
    0000017A0000017ALl\
    0000017B0000017BLu\
    0000017C0000017CLl\
    0000017D0000017DLu\
    0000017E00000180Ll\
    0000018100000182Lu\
    0000018300000183Ll\
    0000018400000184Lu\
    0000018500000185Ll\
    0000018600000187Lu\
    0000018800000188Ll\
    000001890000018BLu\
    0000018C0000018DLl\
    0000018E00000191Lu\
    0000019200000192Ll\
    0000019300000194Lu\
    0000019500000195Ll\
    0000019600000198Lu\
    000001990000019BLl\
    0000019C0000019DLu\
    0000019E0000019ELl\
    0000019F000001A0Lu\
    000001A1000001A1Ll\
    000001A2000001A2Lu\
    000001A3000001A3Ll\
    000001A4000001A4Lu\
    000001A5000001A5Ll\
    000001A6000001A7Lu\
    000001A8000001A8Ll\
    000001A9000001A9Lu\
    000001AA000001ABLl\
    000001AC000001ACLu\
    000001AD000001ADLl\
    000001AE000001AFLu\
    000001B0000001B0Ll\
    000001B1000001B3Lu\
    000001B4000001B4Ll\
    000001B5000001B5Lu\
    000001B6000001B6Ll\
    000001B7000001B8Lu\
    000001B9000001BALl\
    000001BB000001BBLo\
    000001BC000001BCLu\
    000001BD000001BFLl\
    000001C0000001C3Lo\
    000001C4000001C4Lu\
    000001C5000001C5Lt\
    000001C6000001C6Ll\
    000001C7000001C7Lu\
    000001C8000001C8Lt\
    000001C9000001C9Ll\
    000001CA000001CALu\
    000001CB000001CBLt\
    000001CC000001CCLl\
    000001CD000001CDLu\
    000001CE000001CELl\
    000001CF000001CFLu\
    000001D0000001D0Ll\
    000001D1000001D1Lu\
    000001D2000001D2Ll\
    000001D3000001D3Lu\
    000001D4000001D4Ll\
    000001D5000001D5Lu\
    000001D6000001D6Ll\
    000001D7000001D7Lu\
    000001D8000001D8Ll\
    000001D9000001D9Lu\
    000001DA000001DALl\
    000001DB000001DBLu\
    000001DC000001DDLl\
    000001DE000001DELu\
    000001DF000001DFLl\
    000001E0000001E0Lu\
    000001E1000001E1Ll\
    000001E2000001E2Lu\
    000001E3000001E3Ll\
    000001E4000001E4Lu\
    000001E5000001E5Ll\
    000001E6000001E6Lu\
    000001E7000001E7Ll\
    000001E8000001E8Lu\
    000001E9000001E9Ll\
    000001EA000001EALu\
    000001EB000001EBLl\
    000001EC000001ECLu\
    000001ED000001EDLl\
    000001EE000001EELu\
    000001EF000001F0Ll\
    000001F1000001F1Lu\
    000001F2000001F2Lt\
    000001F3000001F3Ll\
    000001F4000001F4Lu\
    000001F5000001F5Ll\
    000001F6000001F8Lu\
    000001F9000001F9Ll\
    000001FA000001FALu\
    000001FB000001FBLl\
    000001FC000001FCLu\
    000001FD000001FDLl\
    000001FE000001FELu\
    000001FF000001FFLl\
    0000020000000200Lu\
    0000020100000201Ll\
    0000020200000202Lu\
    0000020300000203Ll\
    0000020400000204Lu\
    0000020500000205Ll\
    0000020600000206Lu\
    0000020700000207Ll\
    0000020800000208Lu\
    0000020900000209Ll\
    0000020A0000020ALu\
    0000020B0000020BLl\
    0000020C0000020CLu\
    0000020D0000020DLl\
    0000020E0000020ELu\
    0000020F0000020FLl\
    0000021000000210Lu\
    0000021100000211Ll\
    0000021200000212Lu\
    0000021300000213Ll\
    0000021400000214Lu\
    0000021500000215Ll\
    0000021600000216Lu\
    0000021700000217Ll\
    0000021800000218Lu\
    0000021900000219Ll\
    0000021A0000021ALu\
    0000021B0000021BLl\
    0000021C0000021CLu\
    0000021D0000021DLl\
    0000021E0000021ELu\
    0000021F0000021FLl\
    0000022000000220Lu\
    0000022100000221Ll\
    0000022200000222Lu\
    0000022300000223Ll\
    0000022400000224Lu\
    0000022500000225Ll\
    0000022600000226Lu\
    0000022700000227Ll\
    0000022800000228Lu\
    0000022900000229Ll\
    0000022A0000022ALu\
    0000022B0000022BLl\
    0000022C0000022CLu\
    0000022D0000022DLl\
    0000022E0000022ELu\
    0000022F0000022FLl\
    0000023000000230Lu\
    0000023100000231Ll\
    0000023200000232Lu\
    0000023300000239Ll\
    0000023A0000023BLu\
    0000023C0000023CLl\
    0000023D0000023ELu\
    0000023F00000240Ll\
    0000024100000241Lu\
    0000024200000242Ll\
    0000024300000246Lu\
    0000024700000247Ll\
    0000024800000248Lu\
    0000024900000249Ll\
    0000024A0000024ALu\
    0000024B0000024BLl\
    0000024C0000024CLu\
    0000024D0000024DLl\
    0000024E0000024ELu\
    0000024F00000293Ll\
    0000029400000294Lo\
    00000295000002AFLl\
    000002B0000002C1Lm\
    000002C2000002C5Sk\
    000002C6000002D1Lm\
    000002D2000002DFSk\
    000002E0000002E4Lm\
    000002E5000002EBSk\
    000002EC000002ECLm\
    000002ED000002EDSk\
    000002EE000002EELm\
    000002EF000002FFSk\
    000003000000036FMn\
    0000037000000370Lu\
    0000037100000371Ll\
    0000037200000372Lu\
    0000037300000373Ll\
    0000037400000374Lm\
    0000037500000375Sk\
    0000037600000376Lu\
    0000037700000377Ll\
    0000037A0000037ALm\
    0000037B0000037DLl\
    0000037E0000037EPo\
    0000037F0000037FLu\
    0000038400000385Sk\
    0000038600000386Lu\
    0000038700000387Po\
    000003880000038ALu\
    0000038C0000038CLu\
    0000038E0000038FLu\
    0000039000000390Ll\
    00000391000003A1Lu\
    000003A3000003ABLu\
    000003AC000003CELl\
    000003CF000003CFLu\
    000003D0000003D1Ll\
    000003D2000003D4Lu\
    000003D5000003D7Ll\
    000003D8000003D8Lu\
    000003D9000003D9Ll\
    000003DA000003DALu\
    000003DB000003DBLl\
    000003DC000003DCLu\
    000003DD000003DDLl\
    000003DE000003DELu\
    000003DF000003DFLl\
    000003E0000003E0Lu\
    000003E1000003E1Ll\
    000003E2000003E2Lu\
    000003E3000003E3Ll\
    000003E4000003E4Lu";

pub const UNICODE_TABLE_1: &'static str = "\
    000003E5000003E5Ll\
    000003E6000003E6Lu\
    000003E7000003E7Ll\
    000003E8000003E8Lu\
    000003E9000003E9Ll\
    000003EA000003EALu\
    000003EB000003EBLl\
    000003EC000003ECLu\
    000003ED000003EDLl\
    000003EE000003EELu\
    000003EF000003F3Ll\
    000003F4000003F4Lu\
    000003F5000003F5Ll\
    000003F6000003F6Sm\
    000003F7000003F7Lu\
    000003F8000003F8Ll\
    000003F9000003FALu\
    000003FB000003FCLl\
    000003FD0000042FLu\
    000004300000045FLl\
    0000046000000460Lu\
    0000046100000461Ll\
    0000046200000462Lu\
    0000046300000463Ll\
    0000046400000464Lu\
    0000046500000465Ll\
    0000046600000466Lu\
    0000046700000467Ll\
    0000046800000468Lu\
    0000046900000469Ll\
    0000046A0000046ALu\
    0000046B0000046BLl\
    0000046C0000046CLu\
    0000046D0000046DLl\
    0000046E0000046ELu\
    0000046F0000046FLl\
    0000047000000470Lu\
    0000047100000471Ll\
    0000047200000472Lu\
    0000047300000473Ll\
    0000047400000474Lu\
    0000047500000475Ll\
    0000047600000476Lu\
    0000047700000477Ll\
    0000047800000478Lu\
    0000047900000479Ll\
    0000047A0000047ALu\
    0000047B0000047BLl\
    0000047C0000047CLu\
    0000047D0000047DLl\
    0000047E0000047ELu\
    0000047F0000047FLl\
    0000048000000480Lu\
    0000048100000481Ll\
    0000048200000482So\
    0000048300000487Mn\
    0000048800000489Me\
    0000048A0000048ALu\
    0000048B0000048BLl\
    0000048C0000048CLu\
    0000048D0000048DLl\
    0000048E0000048ELu\
    0000048F0000048FLl\
    0000049000000490Lu\
    0000049100000491Ll\
    0000049200000492Lu\
    0000049300000493Ll\
    0000049400000494Lu\
    0000049500000495Ll\
    0000049600000496Lu\
    0000049700000497Ll\
    0000049800000498Lu\
    0000049900000499Ll\
    0000049A0000049ALu\
    0000049B0000049BLl\
    0000049C0000049CLu\
    0000049D0000049DLl\
    0000049E0000049ELu\
    0000049F0000049FLl\
    000004A0000004A0Lu\
    000004A1000004A1Ll\
    000004A2000004A2Lu\
    000004A3000004A3Ll\
    000004A4000004A4Lu\
    000004A5000004A5Ll\
    000004A6000004A6Lu\
    000004A7000004A7Ll\
    000004A8000004A8Lu\
    000004A9000004A9Ll\
    000004AA000004AALu\
    000004AB000004ABLl\
    000004AC000004ACLu\
    000004AD000004ADLl\
    000004AE000004AELu\
    000004AF000004AFLl\
    000004B0000004B0Lu\
    000004B1000004B1Ll\
    000004B2000004B2Lu\
    000004B3000004B3Ll\
    000004B4000004B4Lu\
    000004B5000004B5Ll\
    000004B6000004B6Lu\
    000004B7000004B7Ll\
    000004B8000004B8Lu\
    000004B9000004B9Ll\
    000004BA000004BALu\
    000004BB000004BBLl\
    000004BC000004BCLu\
    000004BD000004BDLl\
    000004BE000004BELu\
    000004BF000004BFLl\
    000004C0000004C1Lu\
    000004C2000004C2Ll\
    000004C3000004C3Lu\
    000004C4000004C4Ll\
    000004C5000004C5Lu\
    000004C6000004C6Ll\
    000004C7000004C7Lu\
    000004C8000004C8Ll\
    000004C9000004C9Lu\
    000004CA000004CALl\
    000004CB000004CBLu\
    000004CC000004CCLl\
    000004CD000004CDLu\
    000004CE000004CFLl\
    000004D0000004D0Lu\
    000004D1000004D1Ll\
    000004D2000004D2Lu\
    000004D3000004D3Ll\
    000004D4000004D4Lu\
    000004D5000004D5Ll\
    000004D6000004D6Lu\
    000004D7000004D7Ll\
    000004D8000004D8Lu\
    000004D9000004D9Ll\
    000004DA000004DALu\
    000004DB000004DBLl\
    000004DC000004DCLu\
    000004DD000004DDLl\
    000004DE000004DELu\
    000004DF000004DFLl\
    000004E0000004E0Lu\
    000004E1000004E1Ll\
    000004E2000004E2Lu\
    000004E3000004E3Ll\
    000004E4000004E4Lu\
    000004E5000004E5Ll\
    000004E6000004E6Lu\
    000004E7000004E7Ll\
    000004E8000004E8Lu\
    000004E9000004E9Ll\
    000004EA000004EALu\
    000004EB000004EBLl\
    000004EC000004ECLu\
    000004ED000004EDLl\
    000004EE000004EELu\
    000004EF000004EFLl\
    000004F0000004F0Lu\
    000004F1000004F1Ll\
    000004F2000004F2Lu\
    000004F3000004F3Ll\
    000004F4000004F4Lu\
    000004F5000004F5Ll\
    000004F6000004F6Lu\
    000004F7000004F7Ll\
    000004F8000004F8Lu\
    000004F9000004F9Ll\
    000004FA000004FALu\
    000004FB000004FBLl\
    000004FC000004FCLu\
    000004FD000004FDLl\
    000004FE000004FELu\
    000004FF000004FFLl\
    0000050000000500Lu\
    0000050100000501Ll\
    0000050200000502Lu\
    0000050300000503Ll\
    0000050400000504Lu\
    0000050500000505Ll\
    0000050600000506Lu\
    0000050700000507Ll\
    0000050800000508Lu\
    0000050900000509Ll\
    0000050A0000050ALu\
    0000050B0000050BLl\
    0000050C0000050CLu\
    0000050D0000050DLl\
    0000050E0000050ELu\
    0000050F0000050FLl\
    0000051000000510Lu\
    0000051100000511Ll\
    0000051200000512Lu\
    0000051300000513Ll\
    0000051400000514Lu\
    0000051500000515Ll\
    0000051600000516Lu\
    0000051700000517Ll\
    0000051800000518Lu\
    0000051900000519Ll\
    0000051A0000051ALu\
    0000051B0000051BLl\
    0000051C0000051CLu\
    0000051D0000051DLl\
    0000051E0000051ELu\
    0000051F0000051FLl\
    0000052000000520Lu\
    0000052100000521Ll\
    0000052200000522Lu\
    0000052300000523Ll\
    0000052400000524Lu\
    0000052500000525Ll\
    0000052600000526Lu\
    0000052700000527Ll\
    0000052800000528Lu\
    0000052900000529Ll\
    0000052A0000052ALu\
    0000052B0000052BLl\
    0000052C0000052CLu\
    0000052D0000052DLl\
    0000052E0000052ELu\
    0000052F0000052FLl\
    0000053100000556Lu\
    0000055900000559Lm\
    0000055A0000055FPo\
    0000056000000588Ll\
    0000058900000589Po\
    0000058A0000058APd\
    0000058D0000058ESo\
    0000058F0000058FSc\
    00000591000005BDMn\
    000005BE000005BEPd\
    000005BF000005BFMn\
    000005C0000005C0Po\
    000005C1000005C2Mn\
    000005C3000005C3Po\
    000005C4000005C5Mn\
    000005C6000005C6Po\
    000005C7000005C7Mn\
    000005D0000005EALo\
    000005EF000005F2Lo\
    000005F3000005F4Po\
    0000060000000605Cf\
    0000060600000608Sm\
    000006090000060APo\
    0000060B0000060BSc\
    0000060C0000060DPo\
    0000060E0000060FSo\
    000006100000061AMn\
    0000061B0000061BPo\
    0000061C0000061CCf\
    0000061D0000061FPo\
    000006200000063FLo\
    0000064000000640Lm\
    000006410000064ALo\
    0000064B0000065FMn\
    0000066000000669Nd\
    0000066A0000066DPo\
    0000066E0000066FLo\
    0000067000000670Mn\
    00000671000006D3Lo\
    000006D4000006D4Po\
    000006D5000006D5Lo\
    000006D6000006DCMn\
    000006DD000006DDCf\
    000006DE000006DESo\
    000006DF000006E4Mn\
    000006E5000006E6Lm\
    000006E7000006E8Mn\
    000006E9000006E9So\
    000006EA000006EDMn\
    000006EE000006EFLo\
    000006F0000006F9Nd\
    000006FA000006FCLo\
    000006FD000006FESo\
    000006FF000006FFLo\
    000007000000070DPo\
    0000070F0000070FCf\
    0000071000000710Lo\
    0000071100000711Mn\
    000007120000072FLo\
    000007300000074AMn\
    0000074D000007A5Lo\
    000007A6000007B0Mn\
    000007B1000007B1Lo\
    000007C0000007C9Nd\
    000007CA000007EALo\
    000007EB000007F3Mn\
    000007F4000007F5Lm\
    000007F6000007F6So\
    000007F7000007F9Po\
    000007FA000007FALm\
    000007FD000007FDMn\
    000007FE000007FFSc\
    0000080000000815Lo\
    0000081600000819Mn\
    0000081A0000081ALm\
    0000081B00000823Mn\
    0000082400000824Lm\
    0000082500000827Mn\
    0000082800000828Lm\
    000008290000082DMn\
    000008300000083EPo\
    0000084000000858Lo\
    000008590000085BMn\
    0000085E0000085EPo\
    000008600000086ALo\
    0000087000000887Lo\
    0000088800000888Sk\
    000008890000088ELo\
    0000089000000891Cf\
    000008980000089FMn\
    000008A0000008C8Lo\
    000008C9000008C9Lm\
    000008CA000008E1Mn\
    000008E2000008E2Cf\
    000008E300000902Mn\
    0000090300000903Mc\
    0000090400000939Lo\
    0000093A0000093AMn\
    0000093B0000093BMc\
    0000093C0000093CMn\
    0000093D0000093DLo\
    0000093E00000940Mc\
    0000094100000948Mn\
    000009490000094CMc\
    0000094D0000094DMn\
    0000094E0000094FMc\
    0000095000000950Lo\
    0000095100000957Mn\
    0000095800000961Lo\
    0000096200000963Mn\
    0000096400000965Po\
    000009660000096FNd\
    0000097000000970Po\
    0000097100000971Lm\
    0000097200000980Lo\
    0000098100000981Mn\
    0000098200000983Mc\
    000009850000098CLo\
    0000098F00000990Lo\
    00000993000009A8Lo\
    000009AA000009B0Lo\
    000009B2000009B2Lo\
    000009B6000009B9Lo\
    000009BC000009BCMn\
    000009BD000009BDLo\
    000009BE000009C0Mc\
    000009C1000009C4Mn\
    000009C7000009C8Mc\
    000009CB000009CCMc\
    000009CD000009CDMn\
    000009CE000009CELo\
    000009D7000009D7Mc\
    000009DC000009DDLo\
    000009DF000009E1Lo\
    000009E2000009E3Mn\
    000009E6000009EFNd\
    000009F0000009F1Lo\
    000009F2000009F3Sc\
    000009F4000009F9No\
    000009FA000009FASo\
    000009FB000009FBSc\
    000009FC000009FCLo\
    000009FD000009FDPo\
    000009FE000009FEMn\
    00000A0100000A02Mn\
    00000A0300000A03Mc\
    00000A0500000A0ALo\
    00000A0F00000A10Lo\
    00000A1300000A28Lo\
    00000A2A00000A30Lo\
    00000A3200000A33Lo\
    00000A3500000A36Lo\
    00000A3800000A39Lo\
    00000A3C00000A3CMn\
    00000A3E00000A40Mc\
    00000A4100000A42Mn\
    00000A4700000A48Mn\
    00000A4B00000A4DMn\
    00000A5100000A51Mn\
    00000A5900000A5CLo\
    00000A5E00000A5ELo\
    00000A6600000A6FNd\
    00000A7000000A71Mn\
    00000A7200000A74Lo\
    00000A7500000A75Mn\
    00000A7600000A76Po\
    00000A8100000A82Mn\
    00000A8300000A83Mc\
    00000A8500000A8DLo\
    00000A8F00000A91Lo\
    00000A9300000AA8Lo\
    00000AAA00000AB0Lo\
    00000AB200000AB3Lo\
    00000AB500000AB9Lo\
    00000ABC00000ABCMn\
    00000ABD00000ABDLo\
    00000ABE00000AC0Mc\
    00000AC100000AC5Mn\
    00000AC700000AC8Mn";

pub const UNICODE_TABLE_2: &'static str = "\
    00000AC900000AC9Mc\
    00000ACB00000ACCMc\
    00000ACD00000ACDMn\
    00000AD000000AD0Lo\
    00000AE000000AE1Lo\
    00000AE200000AE3Mn\
    00000AE600000AEFNd\
    00000AF000000AF0Po\
    00000AF100000AF1Sc\
    00000AF900000AF9Lo\
    00000AFA00000AFFMn\
    00000B0100000B01Mn\
    00000B0200000B03Mc\
    00000B0500000B0CLo\
    00000B0F00000B10Lo\
    00000B1300000B28Lo\
    00000B2A00000B30Lo\
    00000B3200000B33Lo\
    00000B3500000B39Lo\
    00000B3C00000B3CMn\
    00000B3D00000B3DLo\
    00000B3E00000B3EMc\
    00000B3F00000B3FMn\
    00000B4000000B40Mc\
    00000B4100000B44Mn\
    00000B4700000B48Mc\
    00000B4B00000B4CMc\
    00000B4D00000B4DMn\
    00000B5500000B56Mn\
    00000B5700000B57Mc\
    00000B5C00000B5DLo\
    00000B5F00000B61Lo\
    00000B6200000B63Mn\
    00000B6600000B6FNd\
    00000B7000000B70So\
    00000B7100000B71Lo\
    00000B7200000B77No\
    00000B8200000B82Mn\
    00000B8300000B83Lo\
    00000B8500000B8ALo\
    00000B8E00000B90Lo\
    00000B9200000B95Lo\
    00000B9900000B9ALo\
    00000B9C00000B9CLo\
    00000B9E00000B9FLo\
    00000BA300000BA4Lo\
    00000BA800000BAALo\
    00000BAE00000BB9Lo\
    00000BBE00000BBFMc\
    00000BC000000BC0Mn\
    00000BC100000BC2Mc\
    00000BC600000BC8Mc\
    00000BCA00000BCCMc\
    00000BCD00000BCDMn\
    00000BD000000BD0Lo\
    00000BD700000BD7Mc\
    00000BE600000BEFNd\
    00000BF000000BF2No\
    00000BF300000BF8So\
    00000BF900000BF9Sc\
    00000BFA00000BFASo\
    00000C0000000C00Mn\
    00000C0100000C03Mc\
    00000C0400000C04Mn\
    00000C0500000C0CLo\
    00000C0E00000C10Lo\
    00000C1200000C28Lo\
    00000C2A00000C39Lo\
    00000C3C00000C3CMn\
    00000C3D00000C3DLo\
    00000C3E00000C40Mn\
    00000C4100000C44Mc\
    00000C4600000C48Mn\
    00000C4A00000C4DMn\
    00000C5500000C56Mn\
    00000C5800000C5ALo\
    00000C5D00000C5DLo\
    00000C6000000C61Lo\
    00000C6200000C63Mn\
    00000C6600000C6FNd\
    00000C7700000C77Po\
    00000C7800000C7ENo\
    00000C7F00000C7FSo\
    00000C8000000C80Lo\
    00000C8100000C81Mn\
    00000C8200000C83Mc\
    00000C8400000C84Po\
    00000C8500000C8CLo\
    00000C8E00000C90Lo\
    00000C9200000CA8Lo\
    00000CAA00000CB3Lo\
    00000CB500000CB9Lo\
    00000CBC00000CBCMn\
    00000CBD00000CBDLo\
    00000CBE00000CBEMc\
    00000CBF00000CBFMn\
    00000CC000000CC4Mc\
    00000CC600000CC6Mn\
    00000CC700000CC8Mc\
    00000CCA00000CCBMc\
    00000CCC00000CCDMn\
    00000CD500000CD6Mc\
    00000CDD00000CDELo\
    00000CE000000CE1Lo\
    00000CE200000CE3Mn\
    00000CE600000CEFNd\
    00000CF100000CF2Lo\
    00000CF300000CF3Mc\
    00000D0000000D01Mn\
    00000D0200000D03Mc\
    00000D0400000D0CLo\
    00000D0E00000D10Lo\
    00000D1200000D3ALo\
    00000D3B00000D3CMn\
    00000D3D00000D3DLo\
    00000D3E00000D40Mc\
    00000D4100000D44Mn\
    00000D4600000D48Mc\
    00000D4A00000D4CMc\
    00000D4D00000D4DMn\
    00000D4E00000D4ELo\
    00000D4F00000D4FSo\
    00000D5400000D56Lo\
    00000D5700000D57Mc\
    00000D5800000D5ENo\
    00000D5F00000D61Lo\
    00000D6200000D63Mn\
    00000D6600000D6FNd\
    00000D7000000D78No\
    00000D7900000D79So\
    00000D7A00000D7FLo\
    00000D8100000D81Mn\
    00000D8200000D83Mc\
    00000D8500000D96Lo\
    00000D9A00000DB1Lo\
    00000DB300000DBBLo\
    00000DBD00000DBDLo\
    00000DC000000DC6Lo\
    00000DCA00000DCAMn\
    00000DCF00000DD1Mc\
    00000DD200000DD4Mn\
    00000DD600000DD6Mn\
    00000DD800000DDFMc\
    00000DE600000DEFNd\
    00000DF200000DF3Mc\
    00000DF400000DF4Po\
    00000E0100000E30Lo\
    00000E3100000E31Mn\
    00000E3200000E33Lo\
    00000E3400000E3AMn\
    00000E3F00000E3FSc\
    00000E4000000E45Lo\
    00000E4600000E46Lm\
    00000E4700000E4EMn\
    00000E4F00000E4FPo\
    00000E5000000E59Nd\
    00000E5A00000E5BPo\
    00000E8100000E82Lo\
    00000E8400000E84Lo\
    00000E8600000E8ALo\
    00000E8C00000EA3Lo\
    00000EA500000EA5Lo\
    00000EA700000EB0Lo\
    00000EB100000EB1Mn\
    00000EB200000EB3Lo\
    00000EB400000EBCMn\
    00000EBD00000EBDLo\
    00000EC000000EC4Lo\
    00000EC600000EC6Lm\
    00000EC800000ECEMn\
    00000ED000000ED9Nd\
    00000EDC00000EDFLo\
    00000F0000000F00Lo\
    00000F0100000F03So\
    00000F0400000F12Po\
    00000F1300000F13So\
    00000F1400000F14Po\
    00000F1500000F17So\
    00000F1800000F19Mn\
    00000F1A00000F1FSo\
    00000F2000000F29Nd\
    00000F2A00000F33No\
    00000F3400000F34So\
    00000F3500000F35Mn\
    00000F3600000F36So\
    00000F3700000F37Mn\
    00000F3800000F38So\
    00000F3900000F39Mn\
    00000F3A00000F3APs\
    00000F3B00000F3BPe\
    00000F3C00000F3CPs\
    00000F3D00000F3DPe\
    00000F3E00000F3FMc\
    00000F4000000F47Lo\
    00000F4900000F6CLo\
    00000F7100000F7EMn\
    00000F7F00000F7FMc\
    00000F8000000F84Mn\
    00000F8500000F85Po\
    00000F8600000F87Mn\
    00000F8800000F8CLo\
    00000F8D00000F97Mn\
    00000F9900000FBCMn\
    00000FBE00000FC5So\
    00000FC600000FC6Mn\
    00000FC700000FCCSo\
    00000FCE00000FCFSo\
    00000FD000000FD4Po\
    00000FD500000FD8So\
    00000FD900000FDAPo\
    000010000000102ALo\
    0000102B0000102CMc\
    0000102D00001030Mn\
    0000103100001031Mc\
    0000103200001037Mn\
    0000103800001038Mc\
    000010390000103AMn\
    0000103B0000103CMc\
    0000103D0000103EMn\
    0000103F0000103FLo\
    0000104000001049Nd\
    0000104A0000104FPo\
    0000105000001055Lo\
    0000105600001057Mc\
    0000105800001059Mn\
    0000105A0000105DLo\
    0000105E00001060Mn\
    0000106100001061Lo\
    0000106200001064Mc\
    0000106500001066Lo\
    000010670000106DMc\
    0000106E00001070Lo\
    0000107100001074Mn\
    0000107500001081Lo\
    0000108200001082Mn\
    0000108300001084Mc\
    0000108500001086Mn\
    000010870000108CMc\
    0000108D0000108DMn\
    0000108E0000108ELo\
    0000108F0000108FMc\
    0000109000001099Nd\
    0000109A0000109CMc\
    0000109D0000109DMn\
    0000109E0000109FSo\
    000010A0000010C5Lu\
    000010C7000010C7Lu\
    000010CD000010CDLu\
    000010D0000010FALl\
    000010FB000010FBPo\
    000010FC000010FCLm\
    000010FD000010FFLl\
    0000110000001248Lo\
    0000124A0000124DLo\
    0000125000001256Lo\
    0000125800001258Lo\
    0000125A0000125DLo\
    0000126000001288Lo\
    0000128A0000128DLo\
    00001290000012B0Lo\
    000012B2000012B5Lo\
    000012B8000012BELo\
    000012C0000012C0Lo\
    000012C2000012C5Lo\
    000012C8000012D6Lo\
    000012D800001310Lo\
    0000131200001315Lo\
    000013180000135ALo\
    0000135D0000135FMn\
    0000136000001368Po\
    000013690000137CNo\
    000013800000138FLo\
    0000139000001399So\
    000013A0000013F5Lu\
    000013F8000013FDLl\
    0000140000001400Pd\
    000014010000166CLo\
    0000166D0000166DSo\
    0000166E0000166EPo\
    0000166F0000167FLo\
    0000168000001680Zs\
    000016810000169ALo\
    0000169B0000169BPs\
    0000169C0000169CPe\
    000016A0000016EALo\
    000016EB000016EDPo\
    000016EE000016F0Nl\
    000016F1000016F8Lo\
    0000170000001711Lo\
    0000171200001714Mn\
    0000171500001715Mc\
    0000171F00001731Lo\
    0000173200001733Mn\
    0000173400001734Mc\
    0000173500001736Po\
    0000174000001751Lo\
    0000175200001753Mn\
    000017600000176CLo\
    0000176E00001770Lo\
    0000177200001773Mn\
    00001780000017B3Lo\
    000017B4000017B5Mn\
    000017B6000017B6Mc\
    000017B7000017BDMn\
    000017BE000017C5Mc\
    000017C6000017C6Mn\
    000017C7000017C8Mc\
    000017C9000017D3Mn\
    000017D4000017D6Po\
    000017D7000017D7Lm\
    000017D8000017DAPo\
    000017DB000017DBSc\
    000017DC000017DCLo\
    000017DD000017DDMn\
    000017E0000017E9Nd\
    000017F0000017F9No\
    0000180000001805Po\
    0000180600001806Pd\
    000018070000180APo\
    0000180B0000180DMn\
    0000180E0000180ECf\
    0000180F0000180FMn\
    0000181000001819Nd\
    0000182000001842Lo\
    0000184300001843Lm\
    0000184400001878Lo\
    0000188000001884Lo\
    0000188500001886Mn\
    00001887000018A8Lo\
    000018A9000018A9Mn\
    000018AA000018AALo\
    000018B0000018F5Lo\
    000019000000191ELo\
    0000192000001922Mn\
    0000192300001926Mc\
    0000192700001928Mn\
    000019290000192BMc\
    0000193000001931Mc\
    0000193200001932Mn\
    0000193300001938Mc\
    000019390000193BMn\
    0000194000001940So\
    0000194400001945Po\
    000019460000194FNd\
    000019500000196DLo\
    0000197000001974Lo\
    00001980000019ABLo\
    000019B0000019C9Lo\
    000019D0000019D9Nd\
    000019DA000019DANo\
    000019DE000019FFSo\
    00001A0000001A16Lo\
    00001A1700001A18Mn\
    00001A1900001A1AMc\
    00001A1B00001A1BMn\
    00001A1E00001A1FPo\
    00001A2000001A54Lo\
    00001A5500001A55Mc\
    00001A5600001A56Mn\
    00001A5700001A57Mc\
    00001A5800001A5EMn\
    00001A6000001A60Mn\
    00001A6100001A61Mc\
    00001A6200001A62Mn\
    00001A6300001A64Mc\
    00001A6500001A6CMn\
    00001A6D00001A72Mc\
    00001A7300001A7CMn\
    00001A7F00001A7FMn\
    00001A8000001A89Nd\
    00001A9000001A99Nd\
    00001AA000001AA6Po\
    00001AA700001AA7Lm\
    00001AA800001AADPo\
    00001AB000001ABDMn\
    00001ABE00001ABEMe\
    00001ABF00001ACEMn\
    00001B0000001B03Mn\
    00001B0400001B04Mc\
    00001B0500001B33Lo\
    00001B3400001B34Mn\
    00001B3500001B35Mc\
    00001B3600001B3AMn\
    00001B3B00001B3BMc\
    00001B3C00001B3CMn\
    00001B3D00001B41Mc\
    00001B4200001B42Mn\
    00001B4300001B44Mc\
    00001B4500001B4CLo\
    00001B5000001B59Nd\
    00001B5A00001B60Po\
    00001B6100001B6ASo\
    00001B6B00001B73Mn\
    00001B7400001B7CSo\
    00001B7D00001B7EPo\
    00001B8000001B81Mn\
    00001B8200001B82Mc\
    00001B8300001BA0Lo\
    00001BA100001BA1Mc\
    00001BA200001BA5Mn";

pub const UNICODE_TABLE_3: &'static str = "\
    00001BA600001BA7Mc\
    00001BA800001BA9Mn\
    00001BAA00001BAAMc\
    00001BAB00001BADMn\
    00001BAE00001BAFLo\
    00001BB000001BB9Nd\
    00001BBA00001BE5Lo\
    00001BE600001BE6Mn\
    00001BE700001BE7Mc\
    00001BE800001BE9Mn\
    00001BEA00001BECMc\
    00001BED00001BEDMn\
    00001BEE00001BEEMc\
    00001BEF00001BF1Mn\
    00001BF200001BF3Mc\
    00001BFC00001BFFPo\
    00001C0000001C23Lo\
    00001C2400001C2BMc\
    00001C2C00001C33Mn\
    00001C3400001C35Mc\
    00001C3600001C37Mn\
    00001C3B00001C3FPo\
    00001C4000001C49Nd\
    00001C4D00001C4FLo\
    00001C5000001C59Nd\
    00001C5A00001C77Lo\
    00001C7800001C7DLm\
    00001C7E00001C7FPo\
    00001C8000001C88Ll\
    00001C9000001CBALu\
    00001CBD00001CBFLu\
    00001CC000001CC7Po\
    00001CD000001CD2Mn\
    00001CD300001CD3Po\
    00001CD400001CE0Mn\
    00001CE100001CE1Mc\
    00001CE200001CE8Mn\
    00001CE900001CECLo\
    00001CED00001CEDMn\
    00001CEE00001CF3Lo\
    00001CF400001CF4Mn\
    00001CF500001CF6Lo\
    00001CF700001CF7Mc\
    00001CF800001CF9Mn\
    00001CFA00001CFALo\
    00001D0000001D2BLl\
    00001D2C00001D6ALm\
    00001D6B00001D77Ll\
    00001D7800001D78Lm\
    00001D7900001D9ALl\
    00001D9B00001DBFLm\
    00001DC000001DFFMn\
    00001E0000001E00Lu\
    00001E0100001E01Ll\
    00001E0200001E02Lu\
    00001E0300001E03Ll\
    00001E0400001E04Lu\
    00001E0500001E05Ll\
    00001E0600001E06Lu\
    00001E0700001E07Ll\
    00001E0800001E08Lu\
    00001E0900001E09Ll\
    00001E0A00001E0ALu\
    00001E0B00001E0BLl\
    00001E0C00001E0CLu\
    00001E0D00001E0DLl\
    00001E0E00001E0ELu\
    00001E0F00001E0FLl\
    00001E1000001E10Lu\
    00001E1100001E11Ll\
    00001E1200001E12Lu\
    00001E1300001E13Ll\
    00001E1400001E14Lu\
    00001E1500001E15Ll\
    00001E1600001E16Lu\
    00001E1700001E17Ll\
    00001E1800001E18Lu\
    00001E1900001E19Ll\
    00001E1A00001E1ALu\
    00001E1B00001E1BLl\
    00001E1C00001E1CLu\
    00001E1D00001E1DLl\
    00001E1E00001E1ELu\
    00001E1F00001E1FLl\
    00001E2000001E20Lu\
    00001E2100001E21Ll\
    00001E2200001E22Lu\
    00001E2300001E23Ll\
    00001E2400001E24Lu\
    00001E2500001E25Ll\
    00001E2600001E26Lu\
    00001E2700001E27Ll\
    00001E2800001E28Lu\
    00001E2900001E29Ll\
    00001E2A00001E2ALu\
    00001E2B00001E2BLl\
    00001E2C00001E2CLu\
    00001E2D00001E2DLl\
    00001E2E00001E2ELu\
    00001E2F00001E2FLl\
    00001E3000001E30Lu\
    00001E3100001E31Ll\
    00001E3200001E32Lu\
    00001E3300001E33Ll\
    00001E3400001E34Lu\
    00001E3500001E35Ll\
    00001E3600001E36Lu\
    00001E3700001E37Ll\
    00001E3800001E38Lu\
    00001E3900001E39Ll\
    00001E3A00001E3ALu\
    00001E3B00001E3BLl\
    00001E3C00001E3CLu\
    00001E3D00001E3DLl\
    00001E3E00001E3ELu\
    00001E3F00001E3FLl\
    00001E4000001E40Lu\
    00001E4100001E41Ll\
    00001E4200001E42Lu\
    00001E4300001E43Ll\
    00001E4400001E44Lu\
    00001E4500001E45Ll\
    00001E4600001E46Lu\
    00001E4700001E47Ll\
    00001E4800001E48Lu\
    00001E4900001E49Ll\
    00001E4A00001E4ALu\
    00001E4B00001E4BLl\
    00001E4C00001E4CLu\
    00001E4D00001E4DLl\
    00001E4E00001E4ELu\
    00001E4F00001E4FLl\
    00001E5000001E50Lu\
    00001E5100001E51Ll\
    00001E5200001E52Lu\
    00001E5300001E53Ll\
    00001E5400001E54Lu\
    00001E5500001E55Ll\
    00001E5600001E56Lu\
    00001E5700001E57Ll\
    00001E5800001E58Lu\
    00001E5900001E59Ll\
    00001E5A00001E5ALu\
    00001E5B00001E5BLl\
    00001E5C00001E5CLu\
    00001E5D00001E5DLl\
    00001E5E00001E5ELu\
    00001E5F00001E5FLl\
    00001E6000001E60Lu\
    00001E6100001E61Ll\
    00001E6200001E62Lu\
    00001E6300001E63Ll\
    00001E6400001E64Lu\
    00001E6500001E65Ll\
    00001E6600001E66Lu\
    00001E6700001E67Ll\
    00001E6800001E68Lu\
    00001E6900001E69Ll\
    00001E6A00001E6ALu\
    00001E6B00001E6BLl\
    00001E6C00001E6CLu\
    00001E6D00001E6DLl\
    00001E6E00001E6ELu\
    00001E6F00001E6FLl\
    00001E7000001E70Lu\
    00001E7100001E71Ll\
    00001E7200001E72Lu\
    00001E7300001E73Ll\
    00001E7400001E74Lu\
    00001E7500001E75Ll\
    00001E7600001E76Lu\
    00001E7700001E77Ll\
    00001E7800001E78Lu\
    00001E7900001E79Ll\
    00001E7A00001E7ALu\
    00001E7B00001E7BLl\
    00001E7C00001E7CLu\
    00001E7D00001E7DLl\
    00001E7E00001E7ELu\
    00001E7F00001E7FLl\
    00001E8000001E80Lu\
    00001E8100001E81Ll\
    00001E8200001E82Lu\
    00001E8300001E83Ll\
    00001E8400001E84Lu\
    00001E8500001E85Ll\
    00001E8600001E86Lu\
    00001E8700001E87Ll\
    00001E8800001E88Lu\
    00001E8900001E89Ll\
    00001E8A00001E8ALu\
    00001E8B00001E8BLl\
    00001E8C00001E8CLu\
    00001E8D00001E8DLl\
    00001E8E00001E8ELu\
    00001E8F00001E8FLl\
    00001E9000001E90Lu\
    00001E9100001E91Ll\
    00001E9200001E92Lu\
    00001E9300001E93Ll\
    00001E9400001E94Lu\
    00001E9500001E9DLl\
    00001E9E00001E9ELu\
    00001E9F00001E9FLl\
    00001EA000001EA0Lu\
    00001EA100001EA1Ll\
    00001EA200001EA2Lu\
    00001EA300001EA3Ll\
    00001EA400001EA4Lu\
    00001EA500001EA5Ll\
    00001EA600001EA6Lu\
    00001EA700001EA7Ll\
    00001EA800001EA8Lu\
    00001EA900001EA9Ll\
    00001EAA00001EAALu\
    00001EAB00001EABLl\
    00001EAC00001EACLu\
    00001EAD00001EADLl\
    00001EAE00001EAELu\
    00001EAF00001EAFLl\
    00001EB000001EB0Lu\
    00001EB100001EB1Ll\
    00001EB200001EB2Lu\
    00001EB300001EB3Ll\
    00001EB400001EB4Lu\
    00001EB500001EB5Ll\
    00001EB600001EB6Lu\
    00001EB700001EB7Ll\
    00001EB800001EB8Lu\
    00001EB900001EB9Ll\
    00001EBA00001EBALu\
    00001EBB00001EBBLl\
    00001EBC00001EBCLu\
    00001EBD00001EBDLl\
    00001EBE00001EBELu\
    00001EBF00001EBFLl\
    00001EC000001EC0Lu\
    00001EC100001EC1Ll\
    00001EC200001EC2Lu\
    00001EC300001EC3Ll\
    00001EC400001EC4Lu\
    00001EC500001EC5Ll\
    00001EC600001EC6Lu\
    00001EC700001EC7Ll\
    00001EC800001EC8Lu\
    00001EC900001EC9Ll\
    00001ECA00001ECALu\
    00001ECB00001ECBLl\
    00001ECC00001ECCLu\
    00001ECD00001ECDLl\
    00001ECE00001ECELu\
    00001ECF00001ECFLl\
    00001ED000001ED0Lu\
    00001ED100001ED1Ll\
    00001ED200001ED2Lu\
    00001ED300001ED3Ll\
    00001ED400001ED4Lu\
    00001ED500001ED5Ll\
    00001ED600001ED6Lu\
    00001ED700001ED7Ll\
    00001ED800001ED8Lu\
    00001ED900001ED9Ll\
    00001EDA00001EDALu\
    00001EDB00001EDBLl\
    00001EDC00001EDCLu\
    00001EDD00001EDDLl\
    00001EDE00001EDELu\
    00001EDF00001EDFLl\
    00001EE000001EE0Lu\
    00001EE100001EE1Ll\
    00001EE200001EE2Lu\
    00001EE300001EE3Ll\
    00001EE400001EE4Lu\
    00001EE500001EE5Ll\
    00001EE600001EE6Lu\
    00001EE700001EE7Ll\
    00001EE800001EE8Lu\
    00001EE900001EE9Ll\
    00001EEA00001EEALu\
    00001EEB00001EEBLl\
    00001EEC00001EECLu\
    00001EED00001EEDLl\
    00001EEE00001EEELu\
    00001EEF00001EEFLl\
    00001EF000001EF0Lu\
    00001EF100001EF1Ll\
    00001EF200001EF2Lu\
    00001EF300001EF3Ll\
    00001EF400001EF4Lu\
    00001EF500001EF5Ll\
    00001EF600001EF6Lu\
    00001EF700001EF7Ll\
    00001EF800001EF8Lu\
    00001EF900001EF9Ll\
    00001EFA00001EFALu\
    00001EFB00001EFBLl\
    00001EFC00001EFCLu\
    00001EFD00001EFDLl\
    00001EFE00001EFELu\
    00001EFF00001F07Ll\
    00001F0800001F0FLu\
    00001F1000001F15Ll\
    00001F1800001F1DLu\
    00001F2000001F27Ll\
    00001F2800001F2FLu\
    00001F3000001F37Ll\
    00001F3800001F3FLu\
    00001F4000001F45Ll\
    00001F4800001F4DLu\
    00001F5000001F57Ll\
    00001F5900001F59Lu\
    00001F5B00001F5BLu\
    00001F5D00001F5DLu\
    00001F5F00001F5FLu\
    00001F6000001F67Ll\
    00001F6800001F6FLu\
    00001F7000001F7DLl\
    00001F8000001F87Ll\
    00001F8800001F8FLt\
    00001F9000001F97Ll\
    00001F9800001F9FLt\
    00001FA000001FA7Ll\
    00001FA800001FAFLt\
    00001FB000001FB4Ll\
    00001FB600001FB7Ll\
    00001FB800001FBBLu\
    00001FBC00001FBCLt\
    00001FBD00001FBDSk\
    00001FBE00001FBELl\
    00001FBF00001FC1Sk\
    00001FC200001FC4Ll\
    00001FC600001FC7Ll\
    00001FC800001FCBLu\
    00001FCC00001FCCLt\
    00001FCD00001FCFSk\
    00001FD000001FD3Ll\
    00001FD600001FD7Ll\
    00001FD800001FDBLu\
    00001FDD00001FDFSk\
    00001FE000001FE7Ll\
    00001FE800001FECLu\
    00001FED00001FEFSk\
    00001FF200001FF4Ll\
    00001FF600001FF7Ll\
    00001FF800001FFBLu\
    00001FFC00001FFCLt\
    00001FFD00001FFESk\
    000020000000200AZs\
    0000200B0000200FCf\
    0000201000002015Pd\
    0000201600002017Po\
    0000201800002018Pi\
    0000201900002019Pf\
    0000201A0000201APs\
    0000201B0000201CPi\
    0000201D0000201DPf\
    0000201E0000201EPs\
    0000201F0000201FPi\
    0000202000002027Po\
    0000202800002028Zl\
    0000202900002029Zp\
    0000202A0000202ECf\
    0000202F0000202FZs\
    0000203000002038Po\
    0000203900002039Pi\
    0000203A0000203APf\
    0000203B0000203EPo\
    0000203F00002040Pc\
    0000204100002043Po\
    0000204400002044Sm\
    0000204500002045Ps\
    0000204600002046Pe\
    0000204700002051Po\
    0000205200002052Sm\
    0000205300002053Po\
    0000205400002054Pc\
    000020550000205EPo\
    0000205F0000205FZs\
    0000206000002064Cf\
    000020660000206FCf\
    0000207000002070No\
    0000207100002071Lm\
    0000207400002079No\
    0000207A0000207CSm\
    0000207D0000207DPs\
    0000207E0000207EPe\
    0000207F0000207FLm\
    0000208000002089No\
    0000208A0000208CSm\
    0000208D0000208DPs\
    0000208E0000208EPe\
    000020900000209CLm\
    000020A0000020C0Sc\
    000020D0000020DCMn\
    000020DD000020E0Me\
    000020E1000020E1Mn\
    000020E2000020E4Me\
    000020E5000020F0Mn\
    0000210000002101So\
    0000210200002102Lu";

pub const UNICODE_TABLE_4: &'static str = "\
    0000210300002106So\
    0000210700002107Lu\
    0000210800002109So\
    0000210A0000210ALl\
    0000210B0000210DLu\
    0000210E0000210FLl\
    0000211000002112Lu\
    0000211300002113Ll\
    0000211400002114So\
    0000211500002115Lu\
    0000211600002117So\
    0000211800002118Sm\
    000021190000211DLu\
    0000211E00002123So\
    0000212400002124Lu\
    0000212500002125So\
    0000212600002126Lu\
    0000212700002127So\
    0000212800002128Lu\
    0000212900002129So\
    0000212A0000212DLu\
    0000212E0000212ESo\
    0000212F0000212FLl\
    0000213000002133Lu\
    0000213400002134Ll\
    0000213500002138Lo\
    0000213900002139Ll\
    0000213A0000213BSo\
    0000213C0000213DLl\
    0000213E0000213FLu\
    0000214000002144Sm\
    0000214500002145Lu\
    0000214600002149Ll\
    0000214A0000214ASo\
    0000214B0000214BSm\
    0000214C0000214DSo\
    0000214E0000214ELl\
    0000214F0000214FSo\
    000021500000215FNo\
    0000216000002182Nl\
    0000218300002183Lu\
    0000218400002184Ll\
    0000218500002188Nl\
    0000218900002189No\
    0000218A0000218BSo\
    0000219000002194Sm\
    0000219500002199So\
    0000219A0000219BSm\
    0000219C0000219FSo\
    000021A0000021A0Sm\
    000021A1000021A2So\
    000021A3000021A3Sm\
    000021A4000021A5So\
    000021A6000021A6Sm\
    000021A7000021ADSo\
    000021AE000021AESm\
    000021AF000021CDSo\
    000021CE000021CFSm\
    000021D0000021D1So\
    000021D2000021D2Sm\
    000021D3000021D3So\
    000021D4000021D4Sm\
    000021D5000021F3So\
    000021F4000022FFSm\
    0000230000002307So\
    0000230800002308Ps\
    0000230900002309Pe\
    0000230A0000230APs\
    0000230B0000230BPe\
    0000230C0000231FSo\
    0000232000002321Sm\
    0000232200002328So\
    0000232900002329Ps\
    0000232A0000232APe\
    0000232B0000237BSo\
    0000237C0000237CSm\
    0000237D0000239ASo\
    0000239B000023B3Sm\
    000023B4000023DBSo\
    000023DC000023E1Sm\
    000023E200002426So\
    000024400000244ASo\
    000024600000249BNo\
    0000249C000024E9So\
    000024EA000024FFNo\
    00002500000025B6So\
    000025B7000025B7Sm\
    000025B8000025C0So\
    000025C1000025C1Sm\
    000025C2000025F7So\
    000025F8000025FFSm\
    000026000000266ESo\
    0000266F0000266FSm\
    0000267000002767So\
    0000276800002768Ps\
    0000276900002769Pe\
    0000276A0000276APs\
    0000276B0000276BPe\
    0000276C0000276CPs\
    0000276D0000276DPe\
    0000276E0000276EPs\
    0000276F0000276FPe\
    0000277000002770Ps\
    0000277100002771Pe\
    0000277200002772Ps\
    0000277300002773Pe\
    0000277400002774Ps\
    0000277500002775Pe\
    0000277600002793No\
    00002794000027BFSo\
    000027C0000027C4Sm\
    000027C5000027C5Ps\
    000027C6000027C6Pe\
    000027C7000027E5Sm\
    000027E6000027E6Ps\
    000027E7000027E7Pe\
    000027E8000027E8Ps\
    000027E9000027E9Pe\
    000027EA000027EAPs\
    000027EB000027EBPe\
    000027EC000027ECPs\
    000027ED000027EDPe\
    000027EE000027EEPs\
    000027EF000027EFPe\
    000027F0000027FFSm\
    00002800000028FFSo\
    0000290000002982Sm\
    0000298300002983Ps\
    0000298400002984Pe\
    0000298500002985Ps\
    0000298600002986Pe\
    0000298700002987Ps\
    0000298800002988Pe\
    0000298900002989Ps\
    0000298A0000298APe\
    0000298B0000298BPs\
    0000298C0000298CPe\
    0000298D0000298DPs\
    0000298E0000298EPe\
    0000298F0000298FPs\
    0000299000002990Pe\
    0000299100002991Ps\
    0000299200002992Pe\
    0000299300002993Ps\
    0000299400002994Pe\
    0000299500002995Ps\
    0000299600002996Pe\
    0000299700002997Ps\
    0000299800002998Pe\
    00002999000029D7Sm\
    000029D8000029D8Ps\
    000029D9000029D9Pe\
    000029DA000029DAPs\
    000029DB000029DBPe\
    000029DC000029FBSm\
    000029FC000029FCPs\
    000029FD000029FDPe\
    000029FE00002AFFSm\
    00002B0000002B2FSo\
    00002B3000002B44Sm\
    00002B4500002B46So\
    00002B4700002B4CSm\
    00002B4D00002B73So\
    00002B7600002B95So\
    00002B9700002BFFSo\
    00002C0000002C2FLu\
    00002C3000002C5FLl\
    00002C6000002C60Lu\
    00002C6100002C61Ll\
    00002C6200002C64Lu\
    00002C6500002C66Ll\
    00002C6700002C67Lu\
    00002C6800002C68Ll\
    00002C6900002C69Lu\
    00002C6A00002C6ALl\
    00002C6B00002C6BLu\
    00002C6C00002C6CLl\
    00002C6D00002C70Lu\
    00002C7100002C71Ll\
    00002C7200002C72Lu\
    00002C7300002C74Ll\
    00002C7500002C75Lu\
    00002C7600002C7BLl\
    00002C7C00002C7DLm\
    00002C7E00002C80Lu\
    00002C8100002C81Ll\
    00002C8200002C82Lu\
    00002C8300002C83Ll\
    00002C8400002C84Lu\
    00002C8500002C85Ll\
    00002C8600002C86Lu\
    00002C8700002C87Ll\
    00002C8800002C88Lu\
    00002C8900002C89Ll\
    00002C8A00002C8ALu\
    00002C8B00002C8BLl\
    00002C8C00002C8CLu\
    00002C8D00002C8DLl\
    00002C8E00002C8ELu\
    00002C8F00002C8FLl\
    00002C9000002C90Lu\
    00002C9100002C91Ll\
    00002C9200002C92Lu\
    00002C9300002C93Ll\
    00002C9400002C94Lu\
    00002C9500002C95Ll\
    00002C9600002C96Lu\
    00002C9700002C97Ll\
    00002C9800002C98Lu\
    00002C9900002C99Ll\
    00002C9A00002C9ALu\
    00002C9B00002C9BLl\
    00002C9C00002C9CLu\
    00002C9D00002C9DLl\
    00002C9E00002C9ELu\
    00002C9F00002C9FLl\
    00002CA000002CA0Lu\
    00002CA100002CA1Ll\
    00002CA200002CA2Lu\
    00002CA300002CA3Ll\
    00002CA400002CA4Lu\
    00002CA500002CA5Ll\
    00002CA600002CA6Lu\
    00002CA700002CA7Ll\
    00002CA800002CA8Lu\
    00002CA900002CA9Ll\
    00002CAA00002CAALu\
    00002CAB00002CABLl\
    00002CAC00002CACLu\
    00002CAD00002CADLl\
    00002CAE00002CAELu\
    00002CAF00002CAFLl\
    00002CB000002CB0Lu\
    00002CB100002CB1Ll\
    00002CB200002CB2Lu\
    00002CB300002CB3Ll\
    00002CB400002CB4Lu\
    00002CB500002CB5Ll\
    00002CB600002CB6Lu\
    00002CB700002CB7Ll\
    00002CB800002CB8Lu\
    00002CB900002CB9Ll\
    00002CBA00002CBALu\
    00002CBB00002CBBLl\
    00002CBC00002CBCLu\
    00002CBD00002CBDLl\
    00002CBE00002CBELu\
    00002CBF00002CBFLl\
    00002CC000002CC0Lu\
    00002CC100002CC1Ll\
    00002CC200002CC2Lu\
    00002CC300002CC3Ll\
    00002CC400002CC4Lu\
    00002CC500002CC5Ll\
    00002CC600002CC6Lu\
    00002CC700002CC7Ll\
    00002CC800002CC8Lu\
    00002CC900002CC9Ll\
    00002CCA00002CCALu\
    00002CCB00002CCBLl\
    00002CCC00002CCCLu\
    00002CCD00002CCDLl\
    00002CCE00002CCELu\
    00002CCF00002CCFLl\
    00002CD000002CD0Lu\
    00002CD100002CD1Ll\
    00002CD200002CD2Lu\
    00002CD300002CD3Ll\
    00002CD400002CD4Lu\
    00002CD500002CD5Ll\
    00002CD600002CD6Lu\
    00002CD700002CD7Ll\
    00002CD800002CD8Lu\
    00002CD900002CD9Ll\
    00002CDA00002CDALu\
    00002CDB00002CDBLl\
    00002CDC00002CDCLu\
    00002CDD00002CDDLl\
    00002CDE00002CDELu\
    00002CDF00002CDFLl\
    00002CE000002CE0Lu\
    00002CE100002CE1Ll\
    00002CE200002CE2Lu\
    00002CE300002CE4Ll\
    00002CE500002CEASo\
    00002CEB00002CEBLu\
    00002CEC00002CECLl\
    00002CED00002CEDLu\
    00002CEE00002CEELl\
    00002CEF00002CF1Mn\
    00002CF200002CF2Lu\
    00002CF300002CF3Ll\
    00002CF900002CFCPo\
    00002CFD00002CFDNo\
    00002CFE00002CFFPo\
    00002D0000002D25Ll\
    00002D2700002D27Ll\
    00002D2D00002D2DLl\
    00002D3000002D67Lo\
    00002D6F00002D6FLm\
    00002D7000002D70Po\
    00002D7F00002D7FMn\
    00002D8000002D96Lo\
    00002DA000002DA6Lo\
    00002DA800002DAELo\
    00002DB000002DB6Lo\
    00002DB800002DBELo\
    00002DC000002DC6Lo\
    00002DC800002DCELo\
    00002DD000002DD6Lo\
    00002DD800002DDELo\
    00002DE000002DFFMn\
    00002E0000002E01Po\
    00002E0200002E02Pi\
    00002E0300002E03Pf\
    00002E0400002E04Pi\
    00002E0500002E05Pf\
    00002E0600002E08Po\
    00002E0900002E09Pi\
    00002E0A00002E0APf\
    00002E0B00002E0BPo\
    00002E0C00002E0CPi\
    00002E0D00002E0DPf\
    00002E0E00002E16Po\
    00002E1700002E17Pd\
    00002E1800002E19Po\
    00002E1A00002E1APd\
    00002E1B00002E1BPo\
    00002E1C00002E1CPi\
    00002E1D00002E1DPf\
    00002E1E00002E1FPo\
    00002E2000002E20Pi\
    00002E2100002E21Pf\
    00002E2200002E22Ps\
    00002E2300002E23Pe\
    00002E2400002E24Ps\
    00002E2500002E25Pe\
    00002E2600002E26Ps\
    00002E2700002E27Pe\
    00002E2800002E28Ps\
    00002E2900002E29Pe\
    00002E2A00002E2EPo\
    00002E2F00002E2FLm\
    00002E3000002E39Po\
    00002E3A00002E3BPd\
    00002E3C00002E3FPo\
    00002E4000002E40Pd\
    00002E4100002E41Po\
    00002E4200002E42Ps\
    00002E4300002E4FPo\
    00002E5000002E51So\
    00002E5200002E54Po\
    00002E5500002E55Ps\
    00002E5600002E56Pe\
    00002E5700002E57Ps\
    00002E5800002E58Pe\
    00002E5900002E59Ps\
    00002E5A00002E5APe\
    00002E5B00002E5BPs\
    00002E5C00002E5CPe\
    00002E5D00002E5DPd\
    00002E8000002E99So\
    00002E9B00002EF3So\
    00002F0000002FD5So\
    00002FF000002FFFSo\
    0000300000003000Zs\
    0000300100003003Po\
    0000300400003004So\
    0000300500003005Lm\
    0000300600003006Lo\
    0000300700003007Nl\
    0000300800003008Ps\
    0000300900003009Pe\
    0000300A0000300APs\
    0000300B0000300BPe\
    0000300C0000300CPs\
    0000300D0000300DPe\
    0000300E0000300EPs\
    0000300F0000300FPe\
    0000301000003010Ps\
    0000301100003011Pe\
    0000301200003013So\
    0000301400003014Ps\
    0000301500003015Pe\
    0000301600003016Ps\
    0000301700003017Pe\
    0000301800003018Ps\
    0000301900003019Pe\
    0000301A0000301APs\
    0000301B0000301BPe\
    0000301C0000301CPd\
    0000301D0000301DPs\
    0000301E0000301FPe\
    0000302000003020So\
    0000302100003029Nl\
    0000302A0000302DMn\
    0000302E0000302FMc\
    0000303000003030Pd\
    0000303100003035Lm\
    0000303600003037So";

pub const UNICODE_TABLE_5: &'static str = "\
    000030380000303ANl\
    0000303B0000303BLm\
    0000303C0000303CLo\
    0000303D0000303DPo\
    0000303E0000303FSo\
    0000304100003096Lo\
    000030990000309AMn\
    0000309B0000309CSk\
    0000309D0000309ELm\
    0000309F0000309FLo\
    000030A0000030A0Pd\
    000030A1000030FALo\
    000030FB000030FBPo\
    000030FC000030FELm\
    000030FF000030FFLo\
    000031050000312FLo\
    000031310000318ELo\
    0000319000003191So\
    0000319200003195No\
    000031960000319FSo\
    000031A0000031BFLo\
    000031C0000031E3So\
    000031EF000031EFSo\
    000031F0000031FFLo\
    000032000000321ESo\
    0000322000003229No\
    0000322A00003247So\
    000032480000324FNo\
    0000325000003250So\
    000032510000325FNo\
    000032600000327FSo\
    0000328000003289No\
    0000328A000032B0So\
    000032B1000032BFNo\
    000032C0000033FFSo\
    0000340000003400Lo\
    00004DBF00004DBFLo\
    00004DC000004DFFSo\
    00004E0000004E00Lo\
    00009FFF0000A014Lo\
    0000A0150000A015Lm\
    0000A0160000A48CLo\
    0000A4900000A4C6So\
    0000A4D00000A4F7Lo\
    0000A4F80000A4FDLm\
    0000A4FE0000A4FFPo\
    0000A5000000A60BLo\
    0000A60C0000A60CLm\
    0000A60D0000A60FPo\
    0000A6100000A61FLo\
    0000A6200000A629Nd\
    0000A62A0000A62BLo\
    0000A6400000A640Lu\
    0000A6410000A641Ll\
    0000A6420000A642Lu\
    0000A6430000A643Ll\
    0000A6440000A644Lu\
    0000A6450000A645Ll\
    0000A6460000A646Lu\
    0000A6470000A647Ll\
    0000A6480000A648Lu\
    0000A6490000A649Ll\
    0000A64A0000A64ALu\
    0000A64B0000A64BLl\
    0000A64C0000A64CLu\
    0000A64D0000A64DLl\
    0000A64E0000A64ELu\
    0000A64F0000A64FLl\
    0000A6500000A650Lu\
    0000A6510000A651Ll\
    0000A6520000A652Lu\
    0000A6530000A653Ll\
    0000A6540000A654Lu\
    0000A6550000A655Ll\
    0000A6560000A656Lu\
    0000A6570000A657Ll\
    0000A6580000A658Lu\
    0000A6590000A659Ll\
    0000A65A0000A65ALu\
    0000A65B0000A65BLl\
    0000A65C0000A65CLu\
    0000A65D0000A65DLl\
    0000A65E0000A65ELu\
    0000A65F0000A65FLl\
    0000A6600000A660Lu\
    0000A6610000A661Ll\
    0000A6620000A662Lu\
    0000A6630000A663Ll\
    0000A6640000A664Lu\
    0000A6650000A665Ll\
    0000A6660000A666Lu\
    0000A6670000A667Ll\
    0000A6680000A668Lu\
    0000A6690000A669Ll\
    0000A66A0000A66ALu\
    0000A66B0000A66BLl\
    0000A66C0000A66CLu\
    0000A66D0000A66DLl\
    0000A66E0000A66ELo\
    0000A66F0000A66FMn\
    0000A6700000A672Me\
    0000A6730000A673Po\
    0000A6740000A67DMn\
    0000A67E0000A67EPo\
    0000A67F0000A67FLm\
    0000A6800000A680Lu\
    0000A6810000A681Ll\
    0000A6820000A682Lu\
    0000A6830000A683Ll\
    0000A6840000A684Lu\
    0000A6850000A685Ll\
    0000A6860000A686Lu\
    0000A6870000A687Ll\
    0000A6880000A688Lu\
    0000A6890000A689Ll\
    0000A68A0000A68ALu\
    0000A68B0000A68BLl\
    0000A68C0000A68CLu\
    0000A68D0000A68DLl\
    0000A68E0000A68ELu\
    0000A68F0000A68FLl\
    0000A6900000A690Lu\
    0000A6910000A691Ll\
    0000A6920000A692Lu\
    0000A6930000A693Ll\
    0000A6940000A694Lu\
    0000A6950000A695Ll\
    0000A6960000A696Lu\
    0000A6970000A697Ll\
    0000A6980000A698Lu\
    0000A6990000A699Ll\
    0000A69A0000A69ALu\
    0000A69B0000A69BLl\
    0000A69C0000A69DLm\
    0000A69E0000A69FMn\
    0000A6A00000A6E5Lo\
    0000A6E60000A6EFNl\
    0000A6F00000A6F1Mn\
    0000A6F20000A6F7Po\
    0000A7000000A716Sk\
    0000A7170000A71FLm\
    0000A7200000A721Sk\
    0000A7220000A722Lu\
    0000A7230000A723Ll\
    0000A7240000A724Lu\
    0000A7250000A725Ll\
    0000A7260000A726Lu\
    0000A7270000A727Ll\
    0000A7280000A728Lu\
    0000A7290000A729Ll\
    0000A72A0000A72ALu\
    0000A72B0000A72BLl\
    0000A72C0000A72CLu\
    0000A72D0000A72DLl\
    0000A72E0000A72ELu\
    0000A72F0000A731Ll\
    0000A7320000A732Lu\
    0000A7330000A733Ll\
    0000A7340000A734Lu\
    0000A7350000A735Ll\
    0000A7360000A736Lu\
    0000A7370000A737Ll\
    0000A7380000A738Lu\
    0000A7390000A739Ll\
    0000A73A0000A73ALu\
    0000A73B0000A73BLl\
    0000A73C0000A73CLu\
    0000A73D0000A73DLl\
    0000A73E0000A73ELu\
    0000A73F0000A73FLl\
    0000A7400000A740Lu\
    0000A7410000A741Ll\
    0000A7420000A742Lu\
    0000A7430000A743Ll\
    0000A7440000A744Lu\
    0000A7450000A745Ll\
    0000A7460000A746Lu\
    0000A7470000A747Ll\
    0000A7480000A748Lu\
    0000A7490000A749Ll\
    0000A74A0000A74ALu\
    0000A74B0000A74BLl\
    0000A74C0000A74CLu\
    0000A74D0000A74DLl\
    0000A74E0000A74ELu\
    0000A74F0000A74FLl\
    0000A7500000A750Lu\
    0000A7510000A751Ll\
    0000A7520000A752Lu\
    0000A7530000A753Ll\
    0000A7540000A754Lu\
    0000A7550000A755Ll\
    0000A7560000A756Lu\
    0000A7570000A757Ll\
    0000A7580000A758Lu\
    0000A7590000A759Ll\
    0000A75A0000A75ALu\
    0000A75B0000A75BLl\
    0000A75C0000A75CLu\
    0000A75D0000A75DLl\
    0000A75E0000A75ELu\
    0000A75F0000A75FLl\
    0000A7600000A760Lu\
    0000A7610000A761Ll\
    0000A7620000A762Lu\
    0000A7630000A763Ll\
    0000A7640000A764Lu\
    0000A7650000A765Ll\
    0000A7660000A766Lu\
    0000A7670000A767Ll\
    0000A7680000A768Lu\
    0000A7690000A769Ll\
    0000A76A0000A76ALu\
    0000A76B0000A76BLl\
    0000A76C0000A76CLu\
    0000A76D0000A76DLl\
    0000A76E0000A76ELu\
    0000A76F0000A76FLl\
    0000A7700000A770Lm\
    0000A7710000A778Ll\
    0000A7790000A779Lu\
    0000A77A0000A77ALl\
    0000A77B0000A77BLu\
    0000A77C0000A77CLl\
    0000A77D0000A77ELu\
    0000A77F0000A77FLl\
    0000A7800000A780Lu\
    0000A7810000A781Ll\
    0000A7820000A782Lu\
    0000A7830000A783Ll\
    0000A7840000A784Lu\
    0000A7850000A785Ll\
    0000A7860000A786Lu\
    0000A7870000A787Ll\
    0000A7880000A788Lm\
    0000A7890000A78ASk\
    0000A78B0000A78BLu\
    0000A78C0000A78CLl\
    0000A78D0000A78DLu\
    0000A78E0000A78ELl\
    0000A78F0000A78FLo\
    0000A7900000A790Lu\
    0000A7910000A791Ll\
    0000A7920000A792Lu\
    0000A7930000A795Ll\
    0000A7960000A796Lu\
    0000A7970000A797Ll\
    0000A7980000A798Lu\
    0000A7990000A799Ll\
    0000A79A0000A79ALu\
    0000A79B0000A79BLl\
    0000A79C0000A79CLu\
    0000A79D0000A79DLl\
    0000A79E0000A79ELu\
    0000A79F0000A79FLl\
    0000A7A00000A7A0Lu\
    0000A7A10000A7A1Ll\
    0000A7A20000A7A2Lu\
    0000A7A30000A7A3Ll\
    0000A7A40000A7A4Lu\
    0000A7A50000A7A5Ll\
    0000A7A60000A7A6Lu\
    0000A7A70000A7A7Ll\
    0000A7A80000A7A8Lu\
    0000A7A90000A7A9Ll\
    0000A7AA0000A7AELu\
    0000A7AF0000A7AFLl\
    0000A7B00000A7B4Lu\
    0000A7B50000A7B5Ll\
    0000A7B60000A7B6Lu\
    0000A7B70000A7B7Ll\
    0000A7B80000A7B8Lu\
    0000A7B90000A7B9Ll\
    0000A7BA0000A7BALu\
    0000A7BB0000A7BBLl\
    0000A7BC0000A7BCLu\
    0000A7BD0000A7BDLl\
    0000A7BE0000A7BELu\
    0000A7BF0000A7BFLl\
    0000A7C00000A7C0Lu\
    0000A7C10000A7C1Ll\
    0000A7C20000A7C2Lu\
    0000A7C30000A7C3Ll\
    0000A7C40000A7C7Lu\
    0000A7C80000A7C8Ll\
    0000A7C90000A7C9Lu\
    0000A7CA0000A7CALl\
    0000A7D00000A7D0Lu\
    0000A7D10000A7D1Ll\
    0000A7D30000A7D3Ll\
    0000A7D50000A7D5Ll\
    0000A7D60000A7D6Lu\
    0000A7D70000A7D7Ll\
    0000A7D80000A7D8Lu\
    0000A7D90000A7D9Ll\
    0000A7F20000A7F4Lm\
    0000A7F50000A7F5Lu\
    0000A7F60000A7F6Ll\
    0000A7F70000A7F7Lo\
    0000A7F80000A7F9Lm\
    0000A7FA0000A7FALl\
    0000A7FB0000A801Lo\
    0000A8020000A802Mn\
    0000A8030000A805Lo\
    0000A8060000A806Mn\
    0000A8070000A80ALo\
    0000A80B0000A80BMn\
    0000A80C0000A822Lo\
    0000A8230000A824Mc\
    0000A8250000A826Mn\
    0000A8270000A827Mc\
    0000A8280000A82BSo\
    0000A82C0000A82CMn\
    0000A8300000A835No\
    0000A8360000A837So\
    0000A8380000A838Sc\
    0000A8390000A839So\
    0000A8400000A873Lo\
    0000A8740000A877Po\
    0000A8800000A881Mc\
    0000A8820000A8B3Lo\
    0000A8B40000A8C3Mc\
    0000A8C40000A8C5Mn\
    0000A8CE0000A8CFPo\
    0000A8D00000A8D9Nd\
    0000A8E00000A8F1Mn\
    0000A8F20000A8F7Lo\
    0000A8F80000A8FAPo\
    0000A8FB0000A8FBLo\
    0000A8FC0000A8FCPo\
    0000A8FD0000A8FELo\
    0000A8FF0000A8FFMn\
    0000A9000000A909Nd\
    0000A90A0000A925Lo\
    0000A9260000A92DMn\
    0000A92E0000A92FPo\
    0000A9300000A946Lo\
    0000A9470000A951Mn\
    0000A9520000A953Mc\
    0000A95F0000A95FPo\
    0000A9600000A97CLo\
    0000A9800000A982Mn\
    0000A9830000A983Mc\
    0000A9840000A9B2Lo\
    0000A9B30000A9B3Mn\
    0000A9B40000A9B5Mc\
    0000A9B60000A9B9Mn\
    0000A9BA0000A9BBMc\
    0000A9BC0000A9BDMn\
    0000A9BE0000A9C0Mc\
    0000A9C10000A9CDPo\
    0000A9CF0000A9CFLm\
    0000A9D00000A9D9Nd\
    0000A9DE0000A9DFPo\
    0000A9E00000A9E4Lo\
    0000A9E50000A9E5Mn\
    0000A9E60000A9E6Lm\
    0000A9E70000A9EFLo\
    0000A9F00000A9F9Nd\
    0000A9FA0000A9FELo\
    0000AA000000AA28Lo\
    0000AA290000AA2EMn\
    0000AA2F0000AA30Mc\
    0000AA310000AA32Mn\
    0000AA330000AA34Mc\
    0000AA350000AA36Mn\
    0000AA400000AA42Lo\
    0000AA430000AA43Mn\
    0000AA440000AA4BLo\
    0000AA4C0000AA4CMn\
    0000AA4D0000AA4DMc\
    0000AA500000AA59Nd\
    0000AA5C0000AA5FPo\
    0000AA600000AA6FLo\
    0000AA700000AA70Lm\
    0000AA710000AA76Lo\
    0000AA770000AA79So\
    0000AA7A0000AA7ALo\
    0000AA7B0000AA7BMc\
    0000AA7C0000AA7CMn\
    0000AA7D0000AA7DMc\
    0000AA7E0000AAAFLo\
    0000AAB00000AAB0Mn\
    0000AAB10000AAB1Lo\
    0000AAB20000AAB4Mn\
    0000AAB50000AAB6Lo\
    0000AAB70000AAB8Mn\
    0000AAB90000AABDLo\
    0000AABE0000AABFMn\
    0000AAC00000AAC0Lo\
    0000AAC10000AAC1Mn\
    0000AAC20000AAC2Lo\
    0000AADB0000AADCLo\
    0000AADD0000AADDLm\
    0000AADE0000AADFPo\
    0000AAE00000AAEALo\
    0000AAEB0000AAEBMc\
    0000AAEC0000AAEDMn\
    0000AAEE0000AAEFMc\
    0000AAF00000AAF1Po";

pub const UNICODE_TABLE_6: &'static str = "\
    0000AAF20000AAF2Lo\
    0000AAF30000AAF4Lm\
    0000AAF50000AAF5Mc\
    0000AAF60000AAF6Mn\
    0000AB010000AB06Lo\
    0000AB090000AB0ELo\
    0000AB110000AB16Lo\
    0000AB200000AB26Lo\
    0000AB280000AB2ELo\
    0000AB300000AB5ALl\
    0000AB5B0000AB5BSk\
    0000AB5C0000AB5FLm\
    0000AB600000AB68Ll\
    0000AB690000AB69Lm\
    0000AB6A0000AB6BSk\
    0000AB700000ABBFLl\
    0000ABC00000ABE2Lo\
    0000ABE30000ABE4Mc\
    0000ABE50000ABE5Mn\
    0000ABE60000ABE7Mc\
    0000ABE80000ABE8Mn\
    0000ABE90000ABEAMc\
    0000ABEB0000ABEBPo\
    0000ABEC0000ABECMc\
    0000ABED0000ABEDMn\
    0000ABF00000ABF9Nd\
    0000AC000000AC00Lo\
    0000D7A30000D7A3Lo\
    0000D7B00000D7C6Lo\
    0000D7CB0000D7FBLo\
    0000D8000000D800Cs\
    0000DB7F0000DB80Cs\
    0000DBFF0000DC00Cs\
    0000DFFF0000DFFFCs\
    0000E0000000E000Co\
    0000F8FF0000F8FFCo\
    0000F9000000FA6DLo\
    0000FA700000FAD9Lo\
    0000FB000000FB06Ll\
    0000FB130000FB17Ll\
    0000FB1D0000FB1DLo\
    0000FB1E0000FB1EMn\
    0000FB1F0000FB28Lo\
    0000FB290000FB29Sm\
    0000FB2A0000FB36Lo\
    0000FB380000FB3CLo\
    0000FB3E0000FB3ELo\
    0000FB400000FB41Lo\
    0000FB430000FB44Lo\
    0000FB460000FBB1Lo\
    0000FBB20000FBC2Sk\
    0000FBD30000FD3DLo\
    0000FD3E0000FD3EPe\
    0000FD3F0000FD3FPs\
    0000FD400000FD4FSo\
    0000FD500000FD8FLo\
    0000FD920000FDC7Lo\
    0000FDCF0000FDCFSo\
    0000FDF00000FDFBLo\
    0000FDFC0000FDFCSc\
    0000FDFD0000FDFFSo\
    0000FE000000FE0FMn\
    0000FE100000FE16Po\
    0000FE170000FE17Ps\
    0000FE180000FE18Pe\
    0000FE190000FE19Po\
    0000FE200000FE2FMn\
    0000FE300000FE30Po\
    0000FE310000FE32Pd\
    0000FE330000FE34Pc\
    0000FE350000FE35Ps\
    0000FE360000FE36Pe\
    0000FE370000FE37Ps\
    0000FE380000FE38Pe\
    0000FE390000FE39Ps\
    0000FE3A0000FE3APe\
    0000FE3B0000FE3BPs\
    0000FE3C0000FE3CPe\
    0000FE3D0000FE3DPs\
    0000FE3E0000FE3EPe\
    0000FE3F0000FE3FPs\
    0000FE400000FE40Pe\
    0000FE410000FE41Ps\
    0000FE420000FE42Pe\
    0000FE430000FE43Ps\
    0000FE440000FE44Pe\
    0000FE450000FE46Po\
    0000FE470000FE47Ps\
    0000FE480000FE48Pe\
    0000FE490000FE4CPo\
    0000FE4D0000FE4FPc\
    0000FE500000FE52Po\
    0000FE540000FE57Po\
    0000FE580000FE58Pd\
    0000FE590000FE59Ps\
    0000FE5A0000FE5APe\
    0000FE5B0000FE5BPs\
    0000FE5C0000FE5CPe\
    0000FE5D0000FE5DPs\
    0000FE5E0000FE5EPe\
    0000FE5F0000FE61Po\
    0000FE620000FE62Sm\
    0000FE630000FE63Pd\
    0000FE640000FE66Sm\
    0000FE680000FE68Po\
    0000FE690000FE69Sc\
    0000FE6A0000FE6BPo\
    0000FE700000FE74Lo\
    0000FE760000FEFCLo\
    0000FEFF0000FEFFCf\
    0000FF010000FF03Po\
    0000FF040000FF04Sc\
    0000FF050000FF07Po\
    0000FF080000FF08Ps\
    0000FF090000FF09Pe\
    0000FF0A0000FF0APo\
    0000FF0B0000FF0BSm\
    0000FF0C0000FF0CPo\
    0000FF0D0000FF0DPd\
    0000FF0E0000FF0FPo\
    0000FF100000FF19Nd\
    0000FF1A0000FF1BPo\
    0000FF1C0000FF1ESm\
    0000FF1F0000FF20Po\
    0000FF210000FF3ALu\
    0000FF3B0000FF3BPs\
    0000FF3C0000FF3CPo\
    0000FF3D0000FF3DPe\
    0000FF3E0000FF3ESk\
    0000FF3F0000FF3FPc\
    0000FF400000FF40Sk\
    0000FF410000FF5ALl\
    0000FF5B0000FF5BPs\
    0000FF5C0000FF5CSm\
    0000FF5D0000FF5DPe\
    0000FF5E0000FF5ESm\
    0000FF5F0000FF5FPs\
    0000FF600000FF60Pe\
    0000FF610000FF61Po\
    0000FF620000FF62Ps\
    0000FF630000FF63Pe\
    0000FF640000FF65Po\
    0000FF660000FF6FLo\
    0000FF700000FF70Lm\
    0000FF710000FF9DLo\
    0000FF9E0000FF9FLm\
    0000FFA00000FFBELo\
    0000FFC20000FFC7Lo\
    0000FFCA0000FFCFLo\
    0000FFD20000FFD7Lo\
    0000FFDA0000FFDCLo\
    0000FFE00000FFE1Sc\
    0000FFE20000FFE2Sm\
    0000FFE30000FFE3Sk\
    0000FFE40000FFE4So\
    0000FFE50000FFE6Sc\
    0000FFE80000FFE8So\
    0000FFE90000FFECSm\
    0000FFED0000FFEESo\
    0000FFF90000FFFBCf\
    0000FFFC0000FFFDSo\
    000100000001000BLo\
    0001000D00010026Lo\
    000100280001003ALo\
    0001003C0001003DLo\
    0001003F0001004DLo\
    000100500001005DLo\
    00010080000100FALo\
    0001010000010102Po\
    0001010700010133No\
    000101370001013FSo\
    0001014000010174Nl\
    0001017500010178No\
    0001017900010189So\
    0001018A0001018BNo\
    0001018C0001018ESo\
    000101900001019CSo\
    000101A0000101A0So\
    000101D0000101FCSo\
    000101FD000101FDMn\
    000102800001029CLo\
    000102A0000102D0Lo\
    000102E0000102E0Mn\
    000102E1000102FBNo\
    000103000001031FLo\
    0001032000010323No\
    0001032D00010340Lo\
    0001034100010341Nl\
    0001034200010349Lo\
    0001034A0001034ANl\
    0001035000010375Lo\
    000103760001037AMn\
    000103800001039DLo\
    0001039F0001039FPo\
    000103A0000103C3Lo\
    000103C8000103CFLo\
    000103D0000103D0Po\
    000103D1000103D5Nl\
    0001040000010427Lu\
    000104280001044FLl\
    000104500001049DLo\
    000104A0000104A9Nd\
    000104B0000104D3Lu\
    000104D8000104FBLl\
    0001050000010527Lo\
    0001053000010563Lo\
    0001056F0001056FPo\
    000105700001057ALu\
    0001057C0001058ALu\
    0001058C00010592Lu\
    0001059400010595Lu\
    00010597000105A1Ll\
    000105A3000105B1Ll\
    000105B3000105B9Ll\
    000105BB000105BCLl\
    0001060000010736Lo\
    0001074000010755Lo\
    0001076000010767Lo\
    0001078000010785Lm\
    00010787000107B0Lm\
    000107B2000107BALm\
    0001080000010805Lo\
    0001080800010808Lo\
    0001080A00010835Lo\
    0001083700010838Lo\
    0001083C0001083CLo\
    0001083F00010855Lo\
    0001085700010857Po\
    000108580001085FNo\
    0001086000010876Lo\
    0001087700010878So\
    000108790001087FNo\
    000108800001089ELo\
    000108A7000108AFNo\
    000108E0000108F2Lo\
    000108F4000108F5Lo\
    000108FB000108FFNo\
    0001090000010915Lo\
    000109160001091BNo\
    0001091F0001091FPo\
    0001092000010939Lo\
    0001093F0001093FPo\
    00010980000109B7Lo\
    000109BC000109BDNo\
    000109BE000109BFLo\
    000109C0000109CFNo\
    000109D2000109FFNo\
    00010A0000010A00Lo\
    00010A0100010A03Mn\
    00010A0500010A06Mn\
    00010A0C00010A0FMn\
    00010A1000010A13Lo\
    00010A1500010A17Lo\
    00010A1900010A35Lo\
    00010A3800010A3AMn\
    00010A3F00010A3FMn\
    00010A4000010A48No\
    00010A5000010A58Po\
    00010A6000010A7CLo\
    00010A7D00010A7ENo\
    00010A7F00010A7FPo\
    00010A8000010A9CLo\
    00010A9D00010A9FNo\
    00010AC000010AC7Lo\
    00010AC800010AC8So\
    00010AC900010AE4Lo\
    00010AE500010AE6Mn\
    00010AEB00010AEFNo\
    00010AF000010AF6Po\
    00010B0000010B35Lo\
    00010B3900010B3FPo\
    00010B4000010B55Lo\
    00010B5800010B5FNo\
    00010B6000010B72Lo\
    00010B7800010B7FNo\
    00010B8000010B91Lo\
    00010B9900010B9CPo\
    00010BA900010BAFNo\
    00010C0000010C48Lo\
    00010C8000010CB2Lu\
    00010CC000010CF2Ll\
    00010CFA00010CFFNo\
    00010D0000010D23Lo\
    00010D2400010D27Mn\
    00010D3000010D39Nd\
    00010E6000010E7ENo\
    00010E8000010EA9Lo\
    00010EAB00010EACMn\
    00010EAD00010EADPd\
    00010EB000010EB1Lo\
    00010EFD00010EFFMn\
    00010F0000010F1CLo\
    00010F1D00010F26No\
    00010F2700010F27Lo\
    00010F3000010F45Lo\
    00010F4600010F50Mn\
    00010F5100010F54No\
    00010F5500010F59Po\
    00010F7000010F81Lo\
    00010F8200010F85Mn\
    00010F8600010F89Po\
    00010FB000010FC4Lo\
    00010FC500010FCBNo\
    00010FE000010FF6Lo\
    0001100000011000Mc\
    0001100100011001Mn\
    0001100200011002Mc\
    0001100300011037Lo\
    0001103800011046Mn\
    000110470001104DPo\
    0001105200011065No\
    000110660001106FNd\
    0001107000011070Mn\
    0001107100011072Lo\
    0001107300011074Mn\
    0001107500011075Lo\
    0001107F00011081Mn\
    0001108200011082Mc\
    00011083000110AFLo\
    000110B0000110B2Mc\
    000110B3000110B6Mn\
    000110B7000110B8Mc\
    000110B9000110BAMn\
    000110BB000110BCPo\
    000110BD000110BDCf\
    000110BE000110C1Po\
    000110C2000110C2Mn\
    000110CD000110CDCf\
    000110D0000110E8Lo\
    000110F0000110F9Nd\
    0001110000011102Mn\
    0001110300011126Lo\
    000111270001112BMn\
    0001112C0001112CMc\
    0001112D00011134Mn\
    000111360001113FNd\
    0001114000011143Po\
    0001114400011144Lo\
    0001114500011146Mc\
    0001114700011147Lo\
    0001115000011172Lo\
    0001117300011173Mn\
    0001117400011175Po\
    0001117600011176Lo\
    0001118000011181Mn\
    0001118200011182Mc\
    00011183000111B2Lo\
    000111B3000111B5Mc\
    000111B6000111BEMn\
    000111BF000111C0Mc\
    000111C1000111C4Lo\
    000111C5000111C8Po\
    000111C9000111CCMn\
    000111CD000111CDPo\
    000111CE000111CEMc\
    000111CF000111CFMn\
    000111D0000111D9Nd\
    000111DA000111DALo\
    000111DB000111DBPo\
    000111DC000111DCLo\
    000111DD000111DFPo\
    000111E1000111F4No\
    0001120000011211Lo\
    000112130001122BLo\
    0001122C0001122EMc\
    0001122F00011231Mn\
    0001123200011233Mc\
    0001123400011234Mn\
    0001123500011235Mc\
    0001123600011237Mn\
    000112380001123DPo\
    0001123E0001123EMn\
    0001123F00011240Lo\
    0001124100011241Mn\
    0001128000011286Lo\
    0001128800011288Lo\
    0001128A0001128DLo\
    0001128F0001129DLo\
    0001129F000112A8Lo\
    000112A9000112A9Po\
    000112B0000112DELo\
    000112DF000112DFMn\
    000112E0000112E2Mc\
    000112E3000112EAMn\
    000112F0000112F9Nd\
    0001130000011301Mn\
    0001130200011303Mc\
    000113050001130CLo\
    0001130F00011310Lo\
    0001131300011328Lo\
    0001132A00011330Lo\
    0001133200011333Lo\
    0001133500011339Lo\
    0001133B0001133CMn\
    0001133D0001133DLo\
    0001133E0001133FMc\
    0001134000011340Mn\
    0001134100011344Mc\
    0001134700011348Mc\
    0001134B0001134DMc";

pub const UNICODE_TABLE_7: &'static str = "\
    0001135000011350Lo\
    0001135700011357Mc\
    0001135D00011361Lo\
    0001136200011363Mc\
    000113660001136CMn\
    0001137000011374Mn\
    0001140000011434Lo\
    0001143500011437Mc\
    000114380001143FMn\
    0001144000011441Mc\
    0001144200011444Mn\
    0001144500011445Mc\
    0001144600011446Mn\
    000114470001144ALo\
    0001144B0001144FPo\
    0001145000011459Nd\
    0001145A0001145BPo\
    0001145D0001145DPo\
    0001145E0001145EMn\
    0001145F00011461Lo\
    00011480000114AFLo\
    000114B0000114B2Mc\
    000114B3000114B8Mn\
    000114B9000114B9Mc\
    000114BA000114BAMn\
    000114BB000114BEMc\
    000114BF000114C0Mn\
    000114C1000114C1Mc\
    000114C2000114C3Mn\
    000114C4000114C5Lo\
    000114C6000114C6Po\
    000114C7000114C7Lo\
    000114D0000114D9Nd\
    00011580000115AELo\
    000115AF000115B1Mc\
    000115B2000115B5Mn\
    000115B8000115BBMc\
    000115BC000115BDMn\
    000115BE000115BEMc\
    000115BF000115C0Mn\
    000115C1000115D7Po\
    000115D8000115DBLo\
    000115DC000115DDMn\
    000116000001162FLo\
    0001163000011632Mc\
    000116330001163AMn\
    0001163B0001163CMc\
    0001163D0001163DMn\
    0001163E0001163EMc\
    0001163F00011640Mn\
    0001164100011643Po\
    0001164400011644Lo\
    0001165000011659Nd\
    000116600001166CPo\
    00011680000116AALo\
    000116AB000116ABMn\
    000116AC000116ACMc\
    000116AD000116ADMn\
    000116AE000116AFMc\
    000116B0000116B5Mn\
    000116B6000116B6Mc\
    000116B7000116B7Mn\
    000116B8000116B8Lo\
    000116B9000116B9Po\
    000116C0000116C9Nd\
    000117000001171ALo\
    0001171D0001171FMn\
    0001172000011721Mc\
    0001172200011725Mn\
    0001172600011726Mc\
    000117270001172BMn\
    0001173000011739Nd\
    0001173A0001173BNo\
    0001173C0001173EPo\
    0001173F0001173FSo\
    0001174000011746Lo\
    000118000001182BLo\
    0001182C0001182EMc\
    0001182F00011837Mn\
    0001183800011838Mc\
    000118390001183AMn\
    0001183B0001183BPo\
    000118A0000118BFLu\
    000118C0000118DFLl\
    000118E0000118E9Nd\
    000118EA000118F2No\
    000118FF00011906Lo\
    0001190900011909Lo\
    0001190C00011913Lo\
    0001191500011916Lo\
    000119180001192FLo\
    0001193000011935Mc\
    0001193700011938Mc\
    0001193B0001193CMn\
    0001193D0001193DMc\
    0001193E0001193EMn\
    0001193F0001193FLo\
    0001194000011940Mc\
    0001194100011941Lo\
    0001194200011942Mc\
    0001194300011943Mn\
    0001194400011946Po\
    0001195000011959Nd\
    000119A0000119A7Lo\
    000119AA000119D0Lo\
    000119D1000119D3Mc\
    000119D4000119D7Mn\
    000119DA000119DBMn\
    000119DC000119DFMc\
    000119E0000119E0Mn\
    000119E1000119E1Lo\
    000119E2000119E2Po\
    000119E3000119E3Lo\
    000119E4000119E4Mc\
    00011A0000011A00Lo\
    00011A0100011A0AMn\
    00011A0B00011A32Lo\
    00011A3300011A38Mn\
    00011A3900011A39Mc\
    00011A3A00011A3ALo\
    00011A3B00011A3EMn\
    00011A3F00011A46Po\
    00011A4700011A47Mn\
    00011A5000011A50Lo\
    00011A5100011A56Mn\
    00011A5700011A58Mc\
    00011A5900011A5BMn\
    00011A5C00011A89Lo\
    00011A8A00011A96Mn\
    00011A9700011A97Mc\
    00011A9800011A99Mn\
    00011A9A00011A9CPo\
    00011A9D00011A9DLo\
    00011A9E00011AA2Po\
    00011AB000011AF8Lo\
    00011B0000011B09Po\
    00011C0000011C08Lo\
    00011C0A00011C2ELo\
    00011C2F00011C2FMc\
    00011C3000011C36Mn\
    00011C3800011C3DMn\
    00011C3E00011C3EMc\
    00011C3F00011C3FMn\
    00011C4000011C40Lo\
    00011C4100011C45Po\
    00011C5000011C59Nd\
    00011C5A00011C6CNo\
    00011C7000011C71Po\
    00011C7200011C8FLo\
    00011C9200011CA7Mn\
    00011CA900011CA9Mc\
    00011CAA00011CB0Mn\
    00011CB100011CB1Mc\
    00011CB200011CB3Mn\
    00011CB400011CB4Mc\
    00011CB500011CB6Mn\
    00011D0000011D06Lo\
    00011D0800011D09Lo\
    00011D0B00011D30Lo\
    00011D3100011D36Mn\
    00011D3A00011D3AMn\
    00011D3C00011D3DMn\
    00011D3F00011D45Mn\
    00011D4600011D46Lo\
    00011D4700011D47Mn\
    00011D5000011D59Nd\
    00011D6000011D65Lo\
    00011D6700011D68Lo\
    00011D6A00011D89Lo\
    00011D8A00011D8EMc\
    00011D9000011D91Mn\
    00011D9300011D94Mc\
    00011D9500011D95Mn\
    00011D9600011D96Mc\
    00011D9700011D97Mn\
    00011D9800011D98Lo\
    00011DA000011DA9Nd\
    00011EE000011EF2Lo\
    00011EF300011EF4Mn\
    00011EF500011EF6Mc\
    00011EF700011EF8Po\
    00011F0000011F01Mn\
    00011F0200011F02Lo\
    00011F0300011F03Mc\
    00011F0400011F10Lo\
    00011F1200011F33Lo\
    00011F3400011F35Mc\
    00011F3600011F3AMn\
    00011F3E00011F3FMc\
    00011F4000011F40Mn\
    00011F4100011F41Mc\
    00011F4200011F42Mn\
    00011F4300011F4FPo\
    00011F5000011F59Nd\
    00011FB000011FB0Lo\
    00011FC000011FD4No\
    00011FD500011FDCSo\
    00011FDD00011FE0Sc\
    00011FE100011FF1So\
    00011FFF00011FFFPo\
    0001200000012399Lo\
    000124000001246ENl\
    0001247000012474Po\
    0001248000012543Lo\
    00012F9000012FF0Lo\
    00012FF100012FF2Po\
    000130000001342FLo\
    000134300001343FCf\
    0001344000013440Mn\
    0001344100013446Lo\
    0001344700013455Mn\
    0001440000014646Lo\
    0001680000016A38Lo\
    00016A4000016A5ELo\
    00016A6000016A69Nd\
    00016A6E00016A6FPo\
    00016A7000016ABELo\
    00016AC000016AC9Nd\
    00016AD000016AEDLo\
    00016AF000016AF4Mn\
    00016AF500016AF5Po\
    00016B0000016B2FLo\
    00016B3000016B36Mn\
    00016B3700016B3BPo\
    00016B3C00016B3FSo\
    00016B4000016B43Lm\
    00016B4400016B44Po\
    00016B4500016B45So\
    00016B5000016B59Nd\
    00016B5B00016B61No\
    00016B6300016B77Lo\
    00016B7D00016B8FLo\
    00016E4000016E5FLu\
    00016E6000016E7FLl\
    00016E8000016E96No\
    00016E9700016E9APo\
    00016F0000016F4ALo\
    00016F4F00016F4FMn\
    00016F5000016F50Lo\
    00016F5100016F87Mc\
    00016F8F00016F92Mn\
    00016F9300016F9FLm\
    00016FE000016FE1Lm\
    00016FE200016FE2Po\
    00016FE300016FE3Lm\
    00016FE400016FE4Mn\
    00016FF000016FF1Mc\
    0001700000017000Lo\
    000187F7000187F7Lo\
    0001880000018CD5Lo\
    00018D0000018D00Lo\
    00018D0800018D08Lo\
    0001AFF00001AFF3Lm\
    0001AFF50001AFFBLm\
    0001AFFD0001AFFELm\
    0001B0000001B122Lo\
    0001B1320001B132Lo\
    0001B1500001B152Lo\
    0001B1550001B155Lo\
    0001B1640001B167Lo\
    0001B1700001B2FBLo\
    0001BC000001BC6ALo\
    0001BC700001BC7CLo\
    0001BC800001BC88Lo\
    0001BC900001BC99Lo\
    0001BC9C0001BC9CSo\
    0001BC9D0001BC9EMn\
    0001BC9F0001BC9FPo\
    0001BCA00001BCA3Cf\
    0001CF000001CF2DMn\
    0001CF300001CF46Mn\
    0001CF500001CFC3So\
    0001D0000001D0F5So\
    0001D1000001D126So\
    0001D1290001D164So\
    0001D1650001D166Mc\
    0001D1670001D169Mn\
    0001D16A0001D16CSo\
    0001D16D0001D172Mc\
    0001D1730001D17ACf\
    0001D17B0001D182Mn\
    0001D1830001D184So\
    0001D1850001D18BMn\
    0001D18C0001D1A9So\
    0001D1AA0001D1ADMn\
    0001D1AE0001D1EASo\
    0001D2000001D241So\
    0001D2420001D244Mn\
    0001D2450001D245So\
    0001D2C00001D2D3No\
    0001D2E00001D2F3No\
    0001D3000001D356So\
    0001D3600001D378No\
    0001D4000001D419Lu\
    0001D41A0001D433Ll\
    0001D4340001D44DLu\
    0001D44E0001D454Ll\
    0001D4560001D467Ll\
    0001D4680001D481Lu\
    0001D4820001D49BLl\
    0001D49C0001D49CLu\
    0001D49E0001D49FLu\
    0001D4A20001D4A2Lu\
    0001D4A50001D4A6Lu\
    0001D4A90001D4ACLu\
    0001D4AE0001D4B5Lu\
    0001D4B60001D4B9Ll\
    0001D4BB0001D4BBLl\
    0001D4BD0001D4C3Ll\
    0001D4C50001D4CFLl\
    0001D4D00001D4E9Lu\
    0001D4EA0001D503Ll\
    0001D5040001D505Lu\
    0001D5070001D50ALu\
    0001D50D0001D514Lu\
    0001D5160001D51CLu\
    0001D51E0001D537Ll\
    0001D5380001D539Lu\
    0001D53B0001D53ELu\
    0001D5400001D544Lu\
    0001D5460001D546Lu\
    0001D54A0001D550Lu\
    0001D5520001D56BLl\
    0001D56C0001D585Lu\
    0001D5860001D59FLl\
    0001D5A00001D5B9Lu\
    0001D5BA0001D5D3Ll\
    0001D5D40001D5EDLu\
    0001D5EE0001D607Ll\
    0001D6080001D621Lu\
    0001D6220001D63BLl\
    0001D63C0001D655Lu\
    0001D6560001D66FLl\
    0001D6700001D689Lu\
    0001D68A0001D6A5Ll\
    0001D6A80001D6C0Lu\
    0001D6C10001D6C1Sm\
    0001D6C20001D6DALl\
    0001D6DB0001D6DBSm\
    0001D6DC0001D6E1Ll\
    0001D6E20001D6FALu\
    0001D6FB0001D6FBSm\
    0001D6FC0001D714Ll\
    0001D7150001D715Sm\
    0001D7160001D71BLl\
    0001D71C0001D734Lu\
    0001D7350001D735Sm\
    0001D7360001D74ELl\
    0001D74F0001D74FSm\
    0001D7500001D755Ll\
    0001D7560001D76ELu\
    0001D76F0001D76FSm\
    0001D7700001D788Ll\
    0001D7890001D789Sm\
    0001D78A0001D78FLl\
    0001D7900001D7A8Lu\
    0001D7A90001D7A9Sm\
    0001D7AA0001D7C2Ll\
    0001D7C30001D7C3Sm\
    0001D7C40001D7C9Ll\
    0001D7CA0001D7CALu\
    0001D7CB0001D7CBLl\
    0001D7CE0001D7FFNd\
    0001D8000001D9FFSo\
    0001DA000001DA36Mn\
    0001DA370001DA3ASo\
    0001DA3B0001DA6CMn\
    0001DA6D0001DA74So\
    0001DA750001DA75Mn\
    0001DA760001DA83So\
    0001DA840001DA84Mn\
    0001DA850001DA86So\
    0001DA870001DA8BPo\
    0001DA9B0001DA9FMn\
    0001DAA10001DAAFMn\
    0001DF000001DF09Ll\
    0001DF0A0001DF0ALo\
    0001DF0B0001DF1ELl\
    0001DF250001DF2ALl\
    0001E0000001E006Mn\
    0001E0080001E018Mn\
    0001E01B0001E021Mn\
    0001E0230001E024Mn\
    0001E0260001E02AMn\
    0001E0300001E06DLm\
    0001E08F0001E08FMn\
    0001E1000001E12CLo\
    0001E1300001E136Mn\
    0001E1370001E13DLm\
    0001E1400001E149Nd\
    0001E14E0001E14ELo\
    0001E14F0001E14FSo\
    0001E2900001E2ADLo\
    0001E2AE0001E2AEMn\
    0001E2C00001E2EBLo\
    0001E2EC0001E2EFMn\
    0001E2F00001E2F9Nd\
    0001E2FF0001E2FFSc\
    0001E4D00001E4EALo\
    0001E4EB0001E4EBLm";

pub const UNICODE_TABLE_8: &'static str = "\
    0001E4EC0001E4EFMn\
    0001E4F00001E4F9Nd\
    0001E7E00001E7E6Lo\
    0001E7E80001E7EBLo\
    0001E7ED0001E7EELo\
    0001E7F00001E7FELo\
    0001E8000001E8C4Lo\
    0001E8C70001E8CFNo\
    0001E8D00001E8D6Mn\
    0001E9000001E921Lu\
    0001E9220001E943Ll\
    0001E9440001E94AMn\
    0001E94B0001E94BLm\
    0001E9500001E959Nd\
    0001E95E0001E95FPo\
    0001EC710001ECABNo\
    0001ECAC0001ECACSo\
    0001ECAD0001ECAFNo\
    0001ECB00001ECB0Sc\
    0001ECB10001ECB4No\
    0001ED010001ED2DNo\
    0001ED2E0001ED2ESo\
    0001ED2F0001ED3DNo\
    0001EE000001EE03Lo\
    0001EE050001EE1FLo\
    0001EE210001EE22Lo\
    0001EE240001EE24Lo\
    0001EE270001EE27Lo\
    0001EE290001EE32Lo\
    0001EE340001EE37Lo\
    0001EE390001EE39Lo\
    0001EE3B0001EE3BLo\
    0001EE420001EE42Lo\
    0001EE470001EE47Lo\
    0001EE490001EE49Lo\
    0001EE4B0001EE4BLo\
    0001EE4D0001EE4FLo\
    0001EE510001EE52Lo\
    0001EE540001EE54Lo\
    0001EE570001EE57Lo\
    0001EE590001EE59Lo\
    0001EE5B0001EE5BLo\
    0001EE5D0001EE5DLo\
    0001EE5F0001EE5FLo\
    0001EE610001EE62Lo\
    0001EE640001EE64Lo\
    0001EE670001EE6ALo\
    0001EE6C0001EE72Lo\
    0001EE740001EE77Lo\
    0001EE790001EE7CLo\
    0001EE7E0001EE7ELo\
    0001EE800001EE89Lo\
    0001EE8B0001EE9BLo\
    0001EEA10001EEA3Lo\
    0001EEA50001EEA9Lo\
    0001EEAB0001EEBBLo\
    0001EEF00001EEF1Sm\
    0001F0000001F02BSo\
    0001F0300001F093So\
    0001F0A00001F0AESo\
    0001F0B10001F0BFSo\
    0001F0C10001F0CFSo\
    0001F0D10001F0F5So\
    0001F1000001F10CNo\
    0001F10D0001F1ADSo\
    0001F1E60001F202So\
    0001F2100001F23BSo\
    0001F2400001F248So\
    0001F2500001F251So\
    0001F2600001F265So\
    0001F3000001F3FASo\
    0001F3FB0001F3FFSk\
    0001F4000001F6D7So\
    0001F6DC0001F6ECSo\
    0001F6F00001F6FCSo\
    0001F7000001F776So\
    0001F77B0001F7D9So\
    0001F7E00001F7EBSo\
    0001F7F00001F7F0So\
    0001F8000001F80BSo\
    0001F8100001F847So\
    0001F8500001F859So\
    0001F8600001F887So\
    0001F8900001F8ADSo\
    0001F8B00001F8B1So\
    0001F9000001FA53So\
    0001FA600001FA6DSo\
    0001FA700001FA7CSo\
    0001FA800001FA88So\
    0001FA900001FABDSo\
    0001FABF0001FAC5So\
    0001FACE0001FADBSo\
    0001FAE00001FAE8So\
    0001FAF00001FAF8So\
    0001FB000001FB92So\
    0001FB940001FBCASo\
    0001FBF00001FBF9Nd\
    0002000000020000Lo\
    0002A6DF0002A6DFLo\
    0002A7000002A700Lo\
    0002B7390002B739Lo\
    0002B7400002B740Lo\
    0002B81D0002B81DLo\
    0002B8200002B820Lo\
    0002CEA10002CEA1Lo\
    0002CEB00002CEB0Lo\
    0002EBE00002EBE0Lo\
    0002EBF00002EBF0Lo\
    0002EE5D0002EE5DLo\
    0002F8000002FA1DLo\
    0003000000030000Lo\
    0003134A0003134ALo\
    0003135000031350Lo\
    000323AF000323AFLo\
    000E0001000E0001Cf\
    000E0020000E007FCf\
    000E0100000E01EFMn\
    000F0000000F0000Co\
    000FFFFD000FFFFDCo\
    0010000000100000Co\
    0010FFFD0010FFFDCo";

/// The bytes of part `i` of the table.
pub open spec fn unicode_table_part(i: int) -> Seq<u8> {
    if i == 0 {
        UNICODE_TABLE_0.spec_bytes()
    } else if i == 1 {
        UNICODE_TABLE_1.spec_bytes()
    } else if i == 2 {
        UNICODE_TABLE_2.spec_bytes()
    } else if i == 3 {
        UNICODE_TABLE_3.spec_bytes()
    } else if i == 4 {
        UNICODE_TABLE_4.spec_bytes()
    } else if i == 5 {
        UNICODE_TABLE_5.spec_bytes()
    } else if i == 6 {
        UNICODE_TABLE_6.spec_bytes()
    } else if i == 7 {
        UNICODE_TABLE_7.spec_bytes()
    } else if i == 8 {
        UNICODE_TABLE_8.spec_bytes()
    } else {
        Seq::empty()
    }
}

/// Gives part `i` of the table.
pub fn unicode_table_part_bytes(i: usize) -> (r: &'static [u8])
    requires
        i < UNICODE_TABLE_PARTS,
    ensures
        r@ == unicode_table_part(i as int),
{
    match i {
        0 => UNICODE_TABLE_0.as_bytes(),
        1 => UNICODE_TABLE_1.as_bytes(),
        2 => UNICODE_TABLE_2.as_bytes(),
        3 => UNICODE_TABLE_3.as_bytes(),
        4 => UNICODE_TABLE_4.as_bytes(),
        5 => UNICODE_TABLE_5.as_bytes(),
        6 => UNICODE_TABLE_6.as_bytes(),
        7 => UNICODE_TABLE_7.as_bytes(),
        _ => UNICODE_TABLE_8.as_bytes(),
    }
}

} // verus!
